//! The text of a log line.

use vstd::prelude::*;
use vstd::string::StringExecFns;

verus! {

/// A logger with the name of what it logs for.
#[derive(Debug)]
pub struct Logger {
    pub log_type: String,
}

impl Logger {
    /// A log line reads `[category]: message`.
    pub open spec fn line_spec(category: Seq<char>, message: Seq<char>) -> Seq<char> {
        seq!['['] + category + seq![']', ':', ' '] + message
    }

    pub fn line(category: &str, message: &str) -> (text: String)
        ensures
            text@ == Self::line_spec(category@, message@),
    {
        proof {
            reveal_strlit("[");
            reveal_strlit("]: ");
        }
        let mut text = String::from_str("[");
        text.append(category);
        text.append("]: ");
        text.append(message);
        assert("["@ =~= seq!['[']);
        assert("]: "@ =~= seq![']', ':', ' ']);
        text
    }
}

} // verus!
