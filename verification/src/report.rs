//! The text of one reported result.

use vstd::prelude::*;
use crate::text::{address_text, append_chars, append_text, checksum_text, hex_text, spec_hex};

verus! {

/// One line of the results: the salt in hexadecimal after `0x`, the address
/// as it displays, and the reward label, with ` => ` between them.
pub open spec fn spec_result_line(salt: Seq<u8>, address: Seq<u8>, label: Seq<char>) -> Seq<char> {
    "0x"@ + spec_hex(salt) + " => "@ + checksum_text(address) + " => "@ + label
}

/// Writes the line that reports `salt`, the address it gives and its label.
pub fn result_line(salt: &[u8], address: &[u8; 20], label: &str) -> (line: Vec<char>)
    ensures
        line@ == spec_result_line(salt@, address@, label@),
{
    let mut line: Vec<char> = Vec::new();
    append_text(&mut line, "0x");
    let salt_text = hex_text(salt);
    append_chars(&mut line, &salt_text);
    append_text(&mut line, " => ");
    let shown = address_text(address);
    append_chars(&mut line, &shown);
    append_text(&mut line, " => ");
    append_text(&mut line, label);
    assert(line@ =~= spec_result_line(salt@, address@, label@));
    line
}

/// The lines as sequences of characters.
pub open spec fn lines_view(lines: Seq<Vec<char>>) -> Seq<Seq<char>> {
    Seq::new(lines.len(), |i: int| lines[i]@)
}

} // verus!
