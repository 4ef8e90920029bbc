//! Byte strings of ASCII text.

use vstd::prelude::*;

verus! {

/// The bytes of a text whose characters are all ASCII.
pub open spec fn ascii(text: Seq<char>) -> Seq<u8> {
    Seq::new(text.len(), |i: int| text[i] as u8)
}

/// One byte with an upper-case ASCII letter turned into its lower-case form.
pub open spec fn lower_byte(b: u8) -> u8 {
    if 0x41 <= b <= 0x5a {
        (b + 0x20) as u8
    } else {
        b
    }
}

/// A byte string with each upper-case ASCII letter in lower case.
pub open spec fn lower(bytes: Seq<u8>) -> Seq<u8> {
    Seq::new(bytes.len(), |i: int| lower_byte(bytes[i]))
}

/// Lowering is idempotent.
pub proof fn lemma_lower_idempotent(bytes: Seq<u8>)
    ensures
        lower(lower(bytes)) == lower(bytes),
{
    assert(lower(lower(bytes)) =~= lower(bytes));
}

/// The bytes of an ASCII string slice.
pub(crate) fn ascii_bytes(text: &str) -> (bytes: &[u8])
    requires
        vstd::string::is_ascii(text),
    ensures
        bytes@ == ascii(text@),
{
    broadcast use vstd::string::is_ascii_spec_bytes;

    text.as_bytes()
}

/// Copies a byte string, turning upper-case ASCII letters into lower case.
pub fn to_lower(bytes: &[u8]) -> (out: Vec<u8>)
    ensures
        out@ == lower(bytes@),
{
    let mut out: Vec<u8> = Vec::new();
    let mut i: usize = 0;
    while i < bytes.len()
        invariant
            i <= bytes.len(),
            out@.len() == i,
            forall|j: int| 0 <= j < i ==> out@[j] == lower_byte(bytes@[j]),
        decreases bytes.len() - i,
    {
        let b: u8 = bytes[i];
        if b >= 0x41 && b <= 0x5a {
            out.push(b + 0x20);
        } else {
            out.push(b);
        }
        i += 1;
    }
    assert(out@ =~= lower(bytes@));
    out
}

/// Whether two byte strings hold the same bytes.
pub fn bytes_equal(a: &[u8], b: &[u8]) -> (same: bool)
    ensures
        same == (a@ == b@),
{
    if a.len() != b.len() {
        return false;
    }
    let mut i: usize = 0;
    while i < a.len()
        invariant
            i <= a.len(),
            a.len() == b.len(),
            forall|j: int| 0 <= j < i ==> a@[j] == b@[j],
        decreases a.len() - i,
    {
        if a[i] != b[i] {
            return false;
        }
        i += 1;
    }
    assert(a@ =~= b@);
    true
}

/// Whether a byte string equals another once its upper-case ASCII letters
/// are lowered.
pub fn lower_equal(bytes: &[u8], lowered: &[u8]) -> (same: bool)
    ensures
        same == (lower(bytes@) == lowered@),
{
    if bytes.len() != lowered.len() {
        return false;
    }
    let mut i: usize = 0;
    while i < bytes.len()
        invariant
            i <= bytes.len(),
            bytes.len() == lowered.len(),
            forall|j: int| 0 <= j < i ==> lower_byte(bytes@[j]) == lowered@[j],
        decreases bytes.len() - i,
    {
        let b: u8 = bytes[i];
        let l: u8 = if b >= 0x41 && b <= 0x5a {
            b + 0x20
        } else {
            b
        };
        if l != lowered[i] {
            assert(lower(bytes@)[i as int] != lowered@[i as int]);
            return false;
        }
        i += 1;
    }
    assert(lower(bytes@) =~= lowered@);
    true
}

} // verus!
