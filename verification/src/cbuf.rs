//! The command buffer: text that is queued to be run as commands.

use vstd::prelude::*;
use crate::text::{concat, decimal_isize, isize_to_string};

verus! {

/// The line that queues `text` for the client `i`.
pub open spec fn queued_line(i: i32, text: Seq<char>) -> Seq<char> {
    "cbuf::add_text: ("@ + decimal_isize(i as isize) + ") "@ + text
}

/// Queues `text` for the client `i`: the line that reports it.
pub fn add_text(i: i32, text: &str) -> (r: String)
    ensures
        r@ == queued_line(i, text@),
{
    let number = isize_to_string(i as isize);
    let a = concat("cbuf::add_text: (", number.as_str());
    let b = concat(a.as_str(), ") ");
    concat(b.as_str(), text)
}

/// Queues `text` and a line break for the client `i`.
pub fn add_textln(i: i32, text: &str) -> (r: String)
    ensures
        r@ == queued_line(i, text@ + "\n"@),
{
    let line = concat(text, "\n");
    add_text(i, line.as_str())
}

} // verus!
