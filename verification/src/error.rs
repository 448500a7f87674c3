//! The validation failures the filters report. Every error is returned to
//! the caller at once: an operation either fully succeeds with a padded
//! result or fails with no output. Each error's message names the offending
//! filter, and where an argument is at fault, the argument too.

use vstd::prelude::*;

verus! {

/// Why a filter invocation was rejected.
#[derive(Debug)]
pub enum FormatError {
    /// The value to format is a composite (object or array), which cannot be
    /// rendered as a padded scalar.
    InvalidInputType {
        /// The name of the filter that was invoked.
        filter: String,
    },
    /// A required argument was not supplied.
    MissingArgument {
        /// The name of the filter that was invoked.
        filter: String,
        /// The name of the missing argument.
        argument: String,
    },
    /// An argument was supplied but has an unusable value.
    InvalidArgumentType {
        /// The name of the filter that was invoked.
        filter: String,
        /// The name of the offending argument.
        argument: String,
    },
}

/// The message text of an error, naming the filter and, where one is at
/// fault, the argument.
pub open spec fn message_text(e: FormatError) -> Seq<char> {
    match e {
        FormatError::InvalidInputType { filter } => "Filter `"@ + filter@
            + "` was called on an incorrect value: got a composite but expected a text or number"@,
        FormatError::MissingArgument { filter, argument } => "Filter `"@ + filter@
            + "` expected an arg called `"@ + argument@ + "`"@,
        FormatError::InvalidArgumentType { filter, argument } => "Filter `"@ + filter@
            + "` received an incorrect type for arg `"@ + argument@
            + "`: expected a non-negative integer"@,
    }
}

impl FormatError {
    /// Renders the error as text naming the filter and, where one is at
    /// fault, the argument.
    pub fn message(&self) -> (m: String)
        ensures
            m@ == message_text(*self),
    {
        match self {
            FormatError::InvalidInputType { filter } => {
                let mut m = "Filter `".to_owned();
                m.append(filter.as_str());
                m.append(
                    "` was called on an incorrect value: got a composite but expected a text or number",
                );
                m
            },
            FormatError::MissingArgument { filter, argument } => {
                let mut m = "Filter `".to_owned();
                m.append(filter.as_str());
                m.append("` expected an arg called `");
                m.append(argument.as_str());
                m.append("`");
                m
            },
            FormatError::InvalidArgumentType { filter, argument } => {
                let mut m = "Filter `".to_owned();
                m.append(filter.as_str());
                m.append("` received an incorrect type for arg `");
                m.append(argument.as_str());
                m.append("`: expected a non-negative integer");
                m
            },
        }
    }
}

} // verus!
