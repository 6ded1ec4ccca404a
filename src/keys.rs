use vstd::prelude::*;

use crate::hex_text::{hex_of, to_hex_string};

verus! {

/// Relies on cryptoballot's `generate_keypair` (ed25519 from the operating
/// system's random source) and on `to_bytes` of its secret and public keys,
/// which are 32 bytes each.
#[verifier::external_body]
fn generate_keypair_bytes() -> (r: (Vec<u8>, Vec<u8>))
    ensures
        r.0@.len() == 32,
        r.1@.len() == 32,
{
    let (secret, public) = cryptoballot::generate_keypair();
    (secret.to_bytes().to_vec(), public.to_bytes().to_vec())
}

/// A fresh ed25519 key pair as hexadecimal text: secret key first, then
/// public key, 64 digits each.
pub fn generate_keypair_hex() -> (r: (String, String))
    ensures
        exists|s: Seq<u8>| s.len() == 32 && #[trigger] hex_of(s) == r.0@,
        exists|p: Seq<u8>| p.len() == 32 && #[trigger] hex_of(p) == r.1@,
{
    let (secret, public) = generate_keypair_bytes();
    let r = (to_hex_string(&secret), to_hex_string(&public));
    assert(hex_of(secret@) == r.0@);
    assert(hex_of(public@) == r.1@);
    r
}

} // verus!
