//! Text written through a buffer of fixed size.

use std::fmt::Write;
use vstd::prelude::*;
use vstd::utf8::encode_utf8;

verus! {

/// A text did not fit into the buffer it was formatted through.
#[derive(Clone, Copy, Debug, PartialEq, Eq, Structural)]
pub struct TextOverflow;

/// Writes `text` into a zeroed buffer of `capacity` bytes through
/// `format_no_std::WriteTo` and returns what the buffer then holds as text.
///
/// `WriteTo::write_str` copies as many bytes as still fit, adds the full
/// length of what it was given to its count, and fails where not everything
/// fitted; `WriteTo::as_str` hands out the written part while the count is
/// within the buffer. So the claim is: the text comes back unchanged where
/// its UTF-8 encoding fits into `capacity` bytes, and nothing comes back
/// where it does not.
#[verifier::external_body]
pub(crate) fn show_within(text: &str, capacity: usize) -> (shown: Option<String>)
    requires
        capacity <= 0x1_0000,
    ensures
        shown is Some <==> encode_utf8(text@).len() <= capacity,
        shown is Some ==> shown.unwrap()@ == text@,
{
    let mut buffer = vec![0u8; capacity];
    let mut writer = format_no_std::WriteTo::new(&mut buffer);
    match writer.write_str(text) {
        Ok(()) => writer.as_str().map(String::from),
        Err(_) => None,
    }
}

} // verus!
