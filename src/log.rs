//! The lines that the build log shows; printing them, in colour, is left to
//! the caller.
use vstd::prelude::*;

verus! {

/// The line that opens a section of the log.
pub fn header_line(msg: &str) -> (r: String)
    ensures
        r@ == "\n["@ + msg@ + "]"@,
{
    String::from_str("\n[").concat(msg).concat("]")
}

/// An informational line.
pub fn info_line(msg: &str) -> (r: String)
    ensures
        r@ == "[INFO] "@ + msg@,
{
    String::from_str("[INFO] ").concat(msg)
}

/// A diagnostic line, shown only when debugging is enabled.
pub fn debug_line(msg: &str, enabled: bool) -> (r: Option<String>)
    ensures
        enabled ==> (r matches Some(s) && s@ == "[DEBUG] "@ + msg@),
        !enabled ==> r is None,
{
    if enabled {
        Some(String::from_str("[DEBUG] ").concat(msg))
    } else {
        None
    }
}

/// The heading of an error, above its explanation.
pub fn error_heading(title: &str) -> (r: String)
    ensures
        r@ == "\n[ERROR: "@ + title@ + "]"@,
{
    String::from_str("\n[ERROR: ").concat(title).concat("]")
}

/// The heading of a warning, above its explanation.
pub fn warning_heading(title: &str) -> (r: String)
    ensures
        r@ == "\n[WARNING: "@ + title@ + "]"@,
{
    String::from_str("\n[WARNING: ").concat(title).concat("]")
}

} // verus!
