//! Log lines as the consumer receives them.
use vstd::prelude::*;
use crate::codec::{escapes_removed, remove_escapes};

verus! {

/// How many of the most recent lines a log request asks for.
pub const LOG_TAIL_LINES: i64 = 100;

/// Removes the colour escape sequences (`ESC [ digits m`) from one line.
pub fn sanitize_line(line: &str) -> (r: String)
    ensures
        r@ == escapes_removed(line@),
        !line@.contains('\u{1b}') ==> r@ == line@,
{
    remove_escapes(line)
}

/// Sanitizes every line, keeping their number and order.
pub fn sanitize_lines(lines: &Vec<String>) -> (r: Vec<String>)
    ensures
        r@.len() == lines@.len(),
        forall|i: int| 0 <= i < lines@.len() ==> (#[trigger] r@[i])@ == escapes_removed(lines@[i]@),
{
    let mut out: Vec<String> = Vec::new();
    let mut i: usize = 0;
    while i < lines.len()
        invariant
            i <= lines.len(),
            out@.len() == i,
            forall|j: int| 0 <= j < i ==> (#[trigger] out@[j])@ == escapes_removed(lines@[j]@),
        decreases lines.len() - i,
    {
        out.push(sanitize_line(lines[i].as_str()));
        i = i + 1;
    }
    out
}

} // verus!
