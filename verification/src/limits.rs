//! The rules that the parameters of a buffer must meet.
use crate::decimal::decimal;
use crate::record::RECORD_HEADER_LEN;
use vstd::prelude::*;

verus! {

/// The parameters that can be refused, as numbers of bytes.
pub struct Limits {
    /// How much the whole buffer may take up on disk.
    pub max_buffer_size: int,
    /// How large a data file may grow.
    pub max_data_file_size: int,
    /// How large an encoded record may be.
    pub max_record_size: int,
    /// How much the writer gathers before it writes to a data file.
    pub write_buffer_size: int,
}

/// A rule that parameters can break. The rules stand in the order in which they are tried.
pub enum Rule {
    /// A data file has room for something.
    DataFileNotEmpty,
    /// Twice the data file size is a number that a buffer size can be compared with.
    DataFileCanBeDoubled,
    /// The buffer has room for two data files: one that is read, one that is written.
    BufferHoldsTwoDataFiles,
    /// A record has room for something.
    RecordNotEmpty,
    /// A record has room for something beyond its header.
    RecordExceedsHeader,
    /// A data file has room for the largest record.
    DataFileHoldsRecord,
    /// The writer's buffer has room for something.
    WriteBufferNotEmpty,
}

impl Rule {
    /// The rule's place in the order in which the rules are tried.
    pub open spec fn rank(self) -> int {
        match self {
            Rule::DataFileNotEmpty => 0,
            Rule::DataFileCanBeDoubled => 1,
            Rule::BufferHoldsTwoDataFiles => 2,
            Rule::RecordNotEmpty => 3,
            Rule::RecordExceedsHeader => 4,
            Rule::DataFileHoldsRecord => 5,
            Rule::WriteBufferNotEmpty => 6,
        }
    }

    /// The name of the parameter that is blamed when the rule is broken.
    pub open spec fn param_name(self) -> Seq<char> {
        match self {
            Rule::DataFileNotEmpty => "max_data_file_size"@,
            Rule::DataFileCanBeDoubled => "max_data_file_size"@,
            Rule::BufferHoldsTwoDataFiles => "max_buffer_size"@,
            Rule::RecordNotEmpty => "max_record_size"@,
            Rule::RecordExceedsHeader => "max_record_size"@,
            Rule::DataFileHoldsRecord => "max_record_size"@,
            Rule::WriteBufferNotEmpty => "write_buffer_size"@,
        }
    }
}

impl Limits {
    /// Whether every rule is met.
    pub open spec fn admissible(self) -> bool {
        &&& 0 < self.max_data_file_size <= u64::MAX / 2
        &&& 2 * self.max_data_file_size <= self.max_buffer_size
        &&& RECORD_HEADER_LEN < self.max_record_size <= self.max_data_file_size
        &&& 0 < self.write_buffer_size
    }

    /// Whether `rule` is broken.
    pub open spec fn breaks(self, rule: Rule) -> bool {
        match rule {
            Rule::DataFileNotEmpty => self.max_data_file_size == 0,
            Rule::DataFileCanBeDoubled => self.max_data_file_size > u64::MAX / 2,
            Rule::BufferHoldsTwoDataFiles => self.max_buffer_size < 2 * self.max_data_file_size,
            Rule::RecordNotEmpty => self.max_record_size == 0,
            Rule::RecordExceedsHeader => self.max_record_size <= RECORD_HEADER_LEN,
            Rule::DataFileHoldsRecord => self.max_record_size > self.max_data_file_size,
            Rule::WriteBufferNotEmpty => self.write_buffer_size == 0,
        }
    }

    /// The rule that a refusal reports: the first in their order that is broken, if any is.
    pub open spec fn first_broken(self) -> Option<Rule> {
        if self.breaks(Rule::DataFileNotEmpty) {
            Some(Rule::DataFileNotEmpty)
        } else if self.breaks(Rule::DataFileCanBeDoubled) {
            Some(Rule::DataFileCanBeDoubled)
        } else if self.breaks(Rule::BufferHoldsTwoDataFiles) {
            Some(Rule::BufferHoldsTwoDataFiles)
        } else if self.breaks(Rule::RecordNotEmpty) {
            Some(Rule::RecordNotEmpty)
        } else if self.breaks(Rule::RecordExceedsHeader) {
            Some(Rule::RecordExceedsHeader)
        } else if self.breaks(Rule::DataFileHoldsRecord) {
            Some(Rule::DataFileHoldsRecord)
        } else if self.breaks(Rule::WriteBufferNotEmpty) {
            Some(Rule::WriteBufferNotEmpty)
        } else {
            None
        }
    }

    /// What is wrong with the parameter that is blamed when `rule` is broken.
    pub open spec fn reason(self, rule: Rule) -> Seq<char> {
        match rule {
            Rule::DataFileNotEmpty => "cannot be zero"@,
            Rule::DataFileCanBeDoubled => "cannot be greater than "@ + decimal(
                (u64::MAX / 2) as nat,
            ) + " bytes"@,
            Rule::BufferHoldsTwoDataFiles => "must be greater than or equal to "@ + decimal(
                (2 * self.max_data_file_size) as nat,
            ) + " bytes"@,
            Rule::RecordNotEmpty => "cannot be zero"@,
            Rule::RecordExceedsHeader => "must be greater than "@ + decimal(
                RECORD_HEADER_LEN as nat,
            ) + " bytes"@,
            Rule::DataFileHoldsRecord => "must be less than or equal to `max_data_file_size`"@,
            Rule::WriteBufferNotEmpty => "cannot be zero"@,
        }
    }
}

} // verus!
