//! Keypairs as plain byte material, and the fixed-layout codec that
//! persists them.
//!
//! The signature scheme itself is an external collaborator: keys enter the
//! library as byte strings of fixed width.  The persisted form of a keypair
//! is the public key followed by the secret key, nothing else; decoding
//! rejects any input of the wrong length and performs no cryptographic
//! validation.

use vstd::prelude::*;
use crate::bytes::clone_bytes;
use crate::errors::Error;

verus! {

/// Width of a serialized public key, in bytes.
pub const PUBLIC_KEY_BYTES: usize = 48;

/// Width of a serialized secret key, in bytes.
pub const SECRET_KEY_BYTES: usize = 48;

/// The mathematical content of a keypair: the two byte strings.
#[verifier::ext_equal]
pub ghost struct KeypairView {
    pub pk: Seq<u8>,
    pub sk: Seq<u8>,
}

impl KeypairView {
    /// Both halves have their fixed serialized width.
    pub open spec fn wf(self) -> bool {
        self.pk.len() == PUBLIC_KEY_BYTES && self.sk.len() == SECRET_KEY_BYTES
    }

    /// The persisted form: public key first, secret key second.
    pub open spec fn encoding(self) -> Seq<u8> {
        self.pk + self.sk
    }
}

/// A signing or withdrawal keypair.
#[derive(Debug)]
pub struct Keypair {
    pub pk: Vec<u8>,
    pub sk: Vec<u8>,
}

impl View for Keypair {
    type V = KeypairView;

    open spec fn view(&self) -> KeypairView {
        KeypairView { pk: self.pk@, sk: self.sk@ }
    }
}

impl Keypair {
    /// Both halves have their fixed serialized width.
    pub open spec fn wf(&self) -> bool {
        self@.wf()
    }
}

impl Clone for Keypair {
    fn clone(&self) -> (r: Self)
        ensures
            r@ == self@,
    {
        Keypair { pk: clone_bytes(&self.pk), sk: clone_bytes(&self.sk) }
    }
}

impl PartialEq for Keypair {
    fn eq(&self, other: &Self) -> (r: bool) {
        let e = self.pk == other.pk && self.sk == other.sk;
        proof {
            if e {
                assert(self.pk@ =~= other.pk@);
                assert(self.sk@ =~= other.sk@);
            } else {
                if self@ == other@ {
                    assert(self.pk@.len() == other.pk@.len());
                    assert(self.sk@.len() == other.sk@.len());
                    assert(forall|i: int| 0 <= i < self.pk@.len() ==> self.pk@[i] == other.pk@[i]);
                    assert(forall|i: int| 0 <= i < self.sk@.len() ==> self.sk@[i] == other.sk@[i]);
                    assert(false);
                }
            }
        }
        e
    }
}

impl vstd::std_specs::cmp::PartialEqSpecImpl for Keypair {
    open spec fn obeys_eq_spec() -> bool {
        true
    }

    open spec fn eq_spec(&self, other: &Self) -> bool {
        self@ == other@
    }
}

/// What decoding persisted bytes yields: the two halves of a string of
/// exactly the paired width, nothing for any other length.
pub open spec fn decode_keypair_spec(bytes: Seq<u8>) -> Option<KeypairView> {
    if bytes.len() == PUBLIC_KEY_BYTES + SECRET_KEY_BYTES {
        Some(
            KeypairView {
                pk: bytes.take(PUBLIC_KEY_BYTES as int),
                sk: bytes.skip(PUBLIC_KEY_BYTES as int),
            },
        )
    } else {
        None
    }
}

/// Encode a keypair for persistence: public key bytes, then secret key bytes.
pub fn encode_keypair(kp: &Keypair) -> (r: Vec<u8>)
    ensures
        r@ == kp@.encoding(),
{
    let mut r = clone_bytes(&kp.pk);
    crate::bytes::append_bytes(&mut r, &kp.sk);
    r
}

/// Decode a persisted keypair, rejecting malformed or truncated input.
pub fn decode_keypair(bytes: &Vec<u8>) -> (r: Result<Keypair, Error>)
    ensures
        r is Ok <==> bytes@.len() == PUBLIC_KEY_BYTES + SECRET_KEY_BYTES,
        r matches Ok(kp) ==> decode_keypair_spec(bytes@) == Some(kp@) && kp.wf(),
        r is Err ==> r == Err::<Keypair, Error>(Error::InvalidKeypairEncoding),
{
    if bytes.len() != PUBLIC_KEY_BYTES + SECRET_KEY_BYTES {
        return Err(Error::InvalidKeypairEncoding);
    }
    let mut pk: Vec<u8> = Vec::new();
    let mut i: usize = 0;
    while i < PUBLIC_KEY_BYTES
        invariant
            i <= PUBLIC_KEY_BYTES,
            bytes@.len() == PUBLIC_KEY_BYTES + SECRET_KEY_BYTES,
            pk@ == bytes@.take(i as int),
        decreases PUBLIC_KEY_BYTES - i,
    {
        pk.push(bytes[i]);
        proof {
            assert(pk@ =~= bytes@.take(i as int + 1));
        }
        i = i + 1;
    }
    let mut sk: Vec<u8> = Vec::new();
    let mut j: usize = PUBLIC_KEY_BYTES;
    while j < PUBLIC_KEY_BYTES + SECRET_KEY_BYTES
        invariant
            PUBLIC_KEY_BYTES <= j <= PUBLIC_KEY_BYTES + SECRET_KEY_BYTES,
            bytes@.len() == PUBLIC_KEY_BYTES + SECRET_KEY_BYTES,
            sk@ == bytes@.subrange(PUBLIC_KEY_BYTES as int, j as int),
        decreases PUBLIC_KEY_BYTES + SECRET_KEY_BYTES - j,
    {
        sk.push(bytes[j]);
        proof {
            assert(sk@ =~= bytes@.subrange(PUBLIC_KEY_BYTES as int, j as int + 1));
        }
        j = j + 1;
    }
    proof {
        assert(sk@ =~= bytes@.skip(PUBLIC_KEY_BYTES as int));
    }
    Ok(Keypair { pk, sk })
}

/// Decoding the persisted form of a well-formed keypair recovers it exactly.
pub proof fn lemma_keypair_codec_round_trip(kp: KeypairView)
    requires
        kp.wf(),
    ensures
        decode_keypair_spec(kp.encoding()) == Some(kp),
{
    let k2 = KeypairView {
        pk: kp.encoding().take(PUBLIC_KEY_BYTES as int),
        sk: kp.encoding().skip(PUBLIC_KEY_BYTES as int),
    };
    assert(k2.pk =~= kp.pk);
    assert(k2.sk =~= kp.sk);
    assert(k2 =~= kp);
}

} // verus!
