//! The content digest: SHA-1 over a file's bytes, rendered as lowercase
//! hexadecimal.

use vstd::prelude::*;
use crate::render::hex_of;
use crate::render::hex_render;
use crate::render::is_lower_hex_ascii;
use crate::render::lemma_hex_of_form;
use sha1::Digest;

verus! {

/// The 20-byte SHA-1 digest of a byte sequence. SHA-1 is a function of the
/// input bytes alone, so the digest is named rather than written out; the
/// wrapper below ties the name to the outside implementation.
pub uninterp spec fn sha1_of(bytes: Seq<u8>) -> Seq<u8>;

/// Relies on sha1::Sha1 through Digest::digest: the SHA-1 of the input, a
/// 20-byte value determined by the input bytes alone.
#[verifier::external_body]
fn sha1_bytes(bytes: &Vec<u8>) -> (r: Vec<u8>)
    ensures
        r@ == sha1_of(bytes@),
        r@.len() == 20,
{
    sha1::Sha1::digest(bytes.as_slice()).to_vec()
}

/// Computes the digest body for a file's content: the SHA-1 of the bytes,
/// as 40 lowercase hexadecimal digits.
pub fn sha1_hex(content: &Vec<u8>) -> (v: Vec<u8>)
    ensures
        v@ == hex_of(sha1_of(content@)),
        v@.len() == 40,
        forall|i: int| 0 <= i < v@.len() ==> is_lower_hex_ascii(#[trigger] v@[i]),
{
    let d = sha1_bytes(content);
    proof {
        lemma_hex_of_form(d@);
    }
    hex_render(&d)
}

} // verus!
