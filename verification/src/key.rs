//! The text under which a repository's metadata pointer is keyed.
use vstd::prelude::*;

use crate::types::{RepositoryId, Text};

verus! {

/// The lower-case hexadecimal digit of a value below sixteen.
pub open spec fn hex_digit(value: int) -> char {
    if value < 10 {
        ('0' as int + value) as char
    } else {
        ('a' as int + value - 10) as char
    }
}

/// Bytes written as lower-case hexadecimal, two digits a byte, the high digit first.
pub open spec fn hex_text(bytes: Seq<u8>) -> Text {
    Seq::new(
        2 * bytes.len(),
        |i: int|
            if i % 2 == 0 {
                hex_digit(bytes[i / 2] as int / 16)
            } else {
                hex_digit(bytes[i / 2] as int % 16)
            },
    )
}

/// `hex::encode` on the sixteen bytes of an id. Taken on trust: its result is
/// the two lower-case hexadecimal digits of each byte, in the order of the
/// bytes and with the high digit first, and nothing else.
#[verifier::external_body]
fn hex_encode(data: &[u8; 16]) -> (text: String)
    ensures
        text@ == hex_text(data@),
{
    hex::encode(data)
}

/// The argument that the key of a repository's metadata pointer is hashed
/// from: its id in hexadecimal.
pub fn metadata_key_argument(id: RepositoryId) -> (argument: String)
    ensures
        argument@ == hex_text(id.bytes@),
{
    hex_encode(&id.bytes)
}

/// The key arguments of two repositories differ: equal hexadecimal text comes
/// from equal ids alone.
pub proof fn law_key_argument_tells_repositories_apart(one: RepositoryId, other: RepositoryId)
    requires
        hex_text(one.bytes@) == hex_text(other.bytes@),
    ensures
        one == other,
{
    let left = hex_text(one.bytes@);
    let right = hex_text(other.bytes@);
    assert forall|k: int| 0 <= k < 16 implies one.bytes@[k] == other.bytes@[k] by {
        assert(left[2 * k] == right[2 * k]);
        assert(left[2 * k + 1] == right[2 * k + 1]);
        assert((2 * k) / 2 == k && (2 * k + 1) / 2 == k);
    }
    assert(one.bytes =~= other.bytes);
}

/// What a lower-case hexadecimal digit stands for; below zero where a character
/// is none.
pub open spec fn digit_value(digit: char) -> int {
    if '0' <= digit && digit <= '9' {
        digit as int - '0' as int
    } else if 'a' <= digit && digit <= 'f' {
        10 + digit as int - 'a' as int
    } else {
        -1
    }
}

/// The key argument reads back to the id: it is thirty-two lower-case
/// hexadecimal digits, and each two of them make up a byte of the id, in order
/// and the high digit first.
pub proof fn law_key_argument_reads_back(id: RepositoryId, k: int)
    requires
        0 <= k < 16,
    ensures
        hex_text(id.bytes@).len() == 32,
        ({
            let high = digit_value(hex_text(id.bytes@)[2 * k]);
            let low = digit_value(hex_text(id.bytes@)[2 * k + 1]);
            0 <= high < 16 && 0 <= low < 16 && id.bytes@[k] == 16 * high + low
        }),
{
    assert((2 * k) / 2 == k && (2 * k + 1) / 2 == k);
}

} // verus!
