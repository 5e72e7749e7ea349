use vstd::prelude::*;
use vstd::string::StringExecFns;

verus! {

/// One line of the log: the level in square brackets, the message, and the
/// end of the line.
pub open spec fn log_line(level: Seq<char>, message: Seq<char>) -> Seq<char> {
    "["@ + level + "] "@ + message + "\n"@
}

/// Writes one line of the log for a message of the given level.
pub fn log_entry(level: &str, message: &str) -> (entry: String)
    ensures
        entry@ == log_line(level@, message@),
{
    String::from_str("[").concat(level).concat("] ").concat(message).concat("\n")
}

} // verus!
