//! MD5 digests and their lower-case hexadecimal rendering.

use vstd::prelude::*;
use crate::text::string_push_char;

verus! {

/// The MD5 digest of a byte sequence.
pub uninterp spec fn md5_of(data: Seq<u8>) -> Seq<u8>;

/// The MD5 digest of `data` (`md5::compute`), as its 16 bytes.
/// The digest is a function of the bytes alone and has 16 bytes; nothing
/// else about it is claimed here.
#[verifier::external_body]
pub(crate) fn md5_digest(data: &[u8]) -> (d: Vec<u8>)
    ensures
        d@ == md5_of(data@),
        d@.len() == 16,
{
    md5::compute(data).0.to_vec()
}

/// The lower-case hexadecimal digit for a value below sixteen.
pub open spec fn hex_digit(v: nat) -> char {
    if v < 10 { ((v + 48) as u8) as char } else { ((v + 87) as u8) as char }
}

/// Two lower-case hexadecimal digits per byte, most significant first
/// (the `{:02x}` rendering of each byte, as `{:x}` on a digest prints it).
pub open spec fn hex_lower(data: Seq<u8>) -> Seq<char>
    decreases data.len(),
{
    if data.len() == 0 {
        Seq::empty()
    } else {
        hex_lower(data.drop_last()) + seq![hex_digit((data.last() / 16) as nat), hex_digit((data.last() % 16) as nat)]
    }
}

pub(crate) fn hex_char(v: u8) -> (c: char)
    requires
        v < 16,
    ensures
        c == hex_digit(v as nat),
{
    if v < 10 { (v + 48) as char } else { (v + 87) as char }
}

/// The lower-case hexadecimal rendering of `data`.
pub fn to_hex_lower(data: &[u8]) -> (s: String)
    ensures
        s@ == hex_lower(data@),
        s@.len() == 2 * data@.len(),
{
    let mut s = String::new();
    let mut i: usize = 0;
    while i < data.len()
        invariant
            i <= data.len(),
            s@ == hex_lower(data@.take(i as int)),
            s@.len() == 2 * i,
        decreases data.len() - i,
    {
        let b = data[i];
        string_push_char(&mut s, hex_char(b / 16));
        string_push_char(&mut s, hex_char(b % 16));
        assert(data@.take(i + 1).drop_last() =~= data@.take(i as int));
        assert(data@.take(i + 1).last() == b);
        assert(s@ =~= hex_lower(data@.take(i + 1)));
        i = i + 1;
    }
    assert(data@.take(data.len() as int) =~= data@);
    s
}

/// The MD5 digest of `data` in lower-case hexadecimal (`format!("{:x}", md5::compute(data))`).
pub fn md5_hex(data: &[u8]) -> (s: String)
    ensures
        s@ == hex_lower(md5_of(data@)),
        s@.len() == 32,
{
    let d = md5_digest(data);
    to_hex_lower(d.as_slice())
}

} // verus!
