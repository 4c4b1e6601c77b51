//! The failure taxonomy and the exact diagnostic text of each failure.

use vstd::prelude::*;
use vstd::string::StringExecFns;
use crate::digits::{decimal, decimal_string};

verus! {

/// Every way a run can fail. Each carries what its diagnostic reports.
#[derive(Debug)]
pub enum QrepError {
    /// The command line did not hold exactly four arguments.
    ArgumentCount { got: usize },
    /// The input file could not be read as text.
    InputRead { path: String, message: String },
    /// The pattern did not compile as a regular expression.
    PatternCompile { pattern: String, replacement: String, message: String },
    /// The output file could not be written.
    OutputWrite { path: String, message: String },
}

/// The diagnostic text that `QrepError::message` renders for each failure.
pub open spec fn message_of(e: QrepError) -> Seq<char> {
    match e {
        QrepError::ArgumentCount { got } => "wrong number of arguments, expected 4, got "@
            + decimal(got as nat),
        QrepError::InputRead { path, message } => "failed to read input file '"@ + path@ + "': "@
            + message@,
        QrepError::PatternCompile { pattern, replacement, message } => {
            "failed to replace with regular expression '"@ + pattern@ + "' and replacement '"@
                + replacement@ + "': "@ + message@
        },
        QrepError::OutputWrite { path, message } => "failed to write data to output file '"@
            + path@ + "': "@ + message@,
    }
}

impl QrepError {
    /// Renders the human-readable diagnostic for this failure.
    pub fn message(&self) -> (r: String)
        ensures
            r@ == message_of(*self),
    {
        match self {
            QrepError::ArgumentCount { got } => {
                let mut s = String::from_str("wrong number of arguments, expected 4, got ");
                let count = decimal_string(*got);
                s.append(count.as_str());
                s
            },
            QrepError::InputRead { path, message } => {
                let mut s = String::from_str("failed to read input file '");
                s.append(path.as_str());
                s.append("': ");
                s.append(message.as_str());
                s
            },
            QrepError::PatternCompile { pattern, replacement, message } => {
                let mut s = String::from_str("failed to replace with regular expression '");
                s.append(pattern.as_str());
                s.append("' and replacement '");
                s.append(replacement.as_str());
                s.append("': ");
                s.append(message.as_str());
                s
            },
            QrepError::OutputWrite { path, message } => {
                let mut s = String::from_str("failed to write data to output file '");
                s.append(path.as_str());
                s.append("': ");
                s.append(message.as_str());
                s
            },
        }
    }
}

/// The usage banner, shown when the argument count is wrong.
pub open spec fn usage_of() -> Seq<char> {
    "qrep - quickly replace a string with another in a file\nUsage: qrep <target string> <replacement string> <input file> <output file>"@
}

/// Renders the usage banner.
pub fn usage() -> (r: String)
    ensures
        r@ == usage_of(),
{
    String::from_str(
        "qrep - quickly replace a string with another in a file\nUsage: qrep <target string> <replacement string> <input file> <output file>",
    )
}

} // verus!
