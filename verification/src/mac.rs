//! MAC address derivation: a stable function of the interface name, built
//! from a cryptographic digest truncated into a fixed vendor prefix, so
//! that addresses are reproducible from interface identity alone.

use vstd::prelude::*;
use md5::Digest;
use crate::text::{spec_hex_byte, push_hex_byte, push_str_copy};

verus! {

/// What the MD5 digest of a byte string is: a function of the input alone.
pub uninterp spec fn md5_of(s: Seq<u8>) -> Seq<u8>;

/// Relies on md5::Md5 through the Digest trait: returns the 16-byte MD5
/// digest of the input, a function of the input bytes alone.
#[verifier::external_body]
fn md5_digest(data: &[u8]) -> (r: Vec<u8>)
    ensures
        r@ == md5_of(data@),
        r@.len() == 16,
{
    md5::Md5::digest(data).to_vec()
}

/// The MAC address text derived from an interface name: the fixed prefix
/// `52:54:`, then the first four digest bytes of the name's UTF-8 bytes,
/// each as two lower-case hexadecimal digits, colon-separated.
pub open spec fn spec_mac(name: Seq<char>) -> Seq<char> {
    let h = md5_of(vstd::utf8::encode_utf8(name));
    "52:54:"@ + spec_hex_byte(h[0]) + ":"@ + spec_hex_byte(h[1]) + ":"@ + spec_hex_byte(h[2])
        + ":"@ + spec_hex_byte(h[3])
}

/// Derives the MAC address for an interface name.
pub fn get_mac(name: &str) -> (r: String)
    ensures
        r@ == spec_mac(name@),
{
    let h = md5_digest(name.as_bytes());
    let mut s: String = "52:54:".to_owned();
    push_hex_byte(&mut s, h[0]);
    push_str_copy(&mut s, ":");
    push_hex_byte(&mut s, h[1]);
    push_str_copy(&mut s, ":");
    push_hex_byte(&mut s, h[2]);
    push_str_copy(&mut s, ":");
    push_hex_byte(&mut s, h[3]);
    proof {
        assert(s@ =~= spec_mac(name@));
    }
    s
}

/// Deriving a MAC address from an interface name is a pure, deterministic
/// function: two derivations from the same name yield the same address.
pub proof fn lemma_mac_deterministic(a: Seq<char>, b: Seq<char>)
    requires
        a == b,
    ensures
        spec_mac(a) == spec_mac(b),
{
}

/// Every derived MAC address starts with the fixed locally-administered
/// prefix `52:54:` and is seventeen characters long.
pub proof fn lemma_mac_shape(name: Seq<char>)
    ensures
        spec_mac(name).len() == 17,
        spec_mac(name).subrange(0, 6) == "52:54:"@,
{
    reveal_strlit("52:54:");
    reveal_strlit(":");
    assert(spec_mac(name).subrange(0, 6) =~= "52:54:"@);
}

} // verus!
