//! Refusals.
use crate::limits::{Limits, Rule};
use vstd::prelude::*;

verus! {

/// Why a configuration could not be built.
#[derive(Debug)]
pub enum BuildError {
    /// A parameter was set to a value that it cannot have.
    InvalidParameter {
        /// The parameter's name.
        param_name: &'static str,
        /// What is wrong with its value.
        reason: String,
    },
}

impl BuildError {
    /// Whether this is the refusal of `limits` for breaking `rule`.
    pub open spec fn refuses(self, limits: Limits, rule: Rule) -> bool {
        match self {
            BuildError::InvalidParameter { param_name, reason } => {
                &&& param_name@ == rule.param_name()
                &&& reason@ == limits.reason(rule)
            },
        }
    }

    /// The text that [`BuildError::message`] returns.
    pub open spec fn text(self) -> Seq<char> {
        match self {
            BuildError::InvalidParameter { param_name, reason } => "parameter '"@ + param_name@
                + "' was invalid: "@ + reason@,
        }
    }

    /// The refusal as a sentence for the user.
    pub fn message(&self) -> (message: String)
        ensures
            message@ == self.text(),
    {
        match self {
            BuildError::InvalidParameter { param_name, reason } => {
                let mut message = String::new();
                message.append("parameter '");
                message.append(param_name);
                message.append("' was invalid: ");
                message.append(reason.as_str());
                assert(message@ =~= self.text());
                message
            },
        }
    }
}

} // verus!
