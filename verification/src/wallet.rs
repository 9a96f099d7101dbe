//! Key material: a key pair held as its 64 raw bytes together with the
//! 32-byte public address they determine, plus signing.
//!
//! The 64 bytes are the secret half followed by the public half; loading
//! them back always yields the identical public address.
use vstd::prelude::*;

use crate::SolError;
use crate::addr::SolPublicKey;
use solana_sdk::signer::Signer;
use solana_sdk::signer::keypair::Keypair;

verus! {

/// Whether 64 bytes encode a valid key pair: the public half is a valid
/// curve point and matches the one derived from the secret half.
pub uninterp spec fn keypair_valid(bytes: Seq<u8>) -> bool;

/// The signature the key with the given 64 bytes produces over a message;
/// signing is deterministic, so this is a pure function of both.
pub uninterp spec fn sig_of(keypair_bytes: Seq<u8>, message: Seq<u8>) -> Seq<u8>;

/// The public address a key pair's 64 bytes determine: their second half.
pub open spec fn public_address_of(keypair_bytes: Seq<u8>) -> Seq<u8> {
    keypair_bytes.subrange(32, 64)
}

/// Relies on solana_sdk::signer::keypair::Keypair::from_bytes: returns Ok
/// exactly when the input is 64 bytes whose public half is a valid curve
/// point equal to the one derived from the secret half; the outcome depends
/// on the bytes alone.
#[verifier::external_body]
fn check_keypair_bytes(bytes: &Vec<u8>) -> (r: bool)
    ensures
        r == keypair_valid(bytes@),
        bytes@.len() != 64 ==> !r,
{
    Keypair::from_bytes(bytes.as_slice()).is_ok()
}

/// Relies on Keypair::sign_message: a deterministic ed25519 signature of 64
/// bytes over the message. The keypair bytes must be valid, as
/// Keypair::from_bytes would otherwise refuse them.
#[verifier::external_body]
fn sign_with_keypair_bytes(bytes: &Vec<u8>, message: &Vec<u8>) -> (r: Vec<u8>)
    requires
        keypair_valid(bytes@),
    ensures
        r@ == sig_of(bytes@, message@),
        r@.len() == 64,
{
    let keypair = Keypair::from_bytes(bytes.as_slice()).unwrap();
    keypair.sign_message(message.as_slice()).as_ref().to_vec()
}

/// Relies on Keypair::new and Keypair::to_bytes: a freshly generated random
/// key pair serializes to 64 bytes (secret then public) that
/// Keypair::from_bytes accepts. Nothing else is promised of a random key.
#[verifier::external_body]
fn generate_keypair_bytes() -> (r: Vec<u8>)
    ensures
        r@.len() == 64,
        keypair_valid(r@),
{
    Keypair::new().to_bytes().to_vec()
}

/// A key pair: 64 raw bytes of secret material and the public address they
/// determine. Immutable after construction.
#[derive(Debug)]
pub struct SolKeyPair {
    bytes: Vec<u8>,
    pubkey: SolPublicKey,
}

impl View for SolKeyPair {
    type V = Seq<u8>;

    closed spec fn view(&self) -> Seq<u8> {
        self.bytes@
    }
}

impl SolKeyPair {
    /// Well-formedness: 64 valid key bytes, and the stored public address
    /// is the one they determine. Every constructor establishes this.
    #[verifier::type_invariant]
    pub closed spec fn wf(self) -> bool {
        &&& self.bytes@.len() == 64
        &&& keypair_valid(self.bytes@)
        &&& self.pubkey@ == public_address_of(self.bytes@)
    }

    /// A well-formed key pair holds 64 valid bytes.
    pub proof fn lemma_wf_facts(&self)
        requires
            self.wf(),
        ensures
            self@.len() == 64,
            keypair_valid(self@),
    {
    }

    /// Loads a key pair from its 64 raw bytes, failing when the length is
    /// wrong or the bytes do not encode a valid key.
    pub fn from_bytes(bytes: Vec<u8>) -> (r: Result<SolKeyPair, SolError>)
        ensures
            r is Ok <==> keypair_valid(bytes@),
            r matches Ok(k) ==> k@ == bytes@,
            r matches Err(e) ==> e == SolError::KeyMaterialError,
    {
        if !check_keypair_bytes(&bytes) {
            return Err(SolError::KeyMaterialError);
        }
        assert(bytes@.len() == 64);
        let mut pk: Vec<u8> = Vec::new();
        let mut i: usize = 32;
        while i < 64
            invariant
                32 <= i <= 64,
                bytes@.len() == 64,
                pk@ == bytes@.subrange(32, i as int),
            decreases 64 - i,
        {
            pk.push(bytes[i]);
            i = i + 1;
            proof {
                assert(pk@ =~= bytes@.subrange(32, i as int));
            }
        }
        let pubkey = SolPublicKey::from_fixed_bytes(pk);
        Ok(SolKeyPair { bytes, pubkey })
    }

    /// Generates a fresh random key pair.
    pub fn generate() -> (r: SolKeyPair)
        ensures
            r@.len() == 64,
    {
        let bytes = generate_keypair_bytes();
        match SolKeyPair::from_bytes(bytes) {
            Ok(k) => k,
            Err(_) => {
                proof {
                    assert(false);
                }
                unreached()
            },
        }
    }

    /// Returns this key pair's public address.
    pub fn get_pubkey(&self) -> (r: SolPublicKey)
        ensures
            r@ == public_address_of(self@),
    {
        proof {
            use_type_invariant(self);
        }
        self.pubkey.duplicate()
    }

    /// Returns a copy of the 64 raw bytes, the persisted form of the key.
    pub fn to_bytes(&self) -> (r: Vec<u8>)
        ensures
            r@ == self@,
            keypair_valid(r@),
    {
        proof {
            use_type_invariant(self);
        }
        let mut out: Vec<u8> = Vec::new();
        let mut i: usize = 0;
        while i < self.bytes.len()
            invariant
                i <= self.bytes@.len(),
                out@ == self.bytes@.take(i as int),
            decreases self.bytes@.len() - i,
        {
            out.push(self.bytes[i]);
            i = i + 1;
            proof {
                assert(out@ =~= self.bytes@.take(i as int));
            }
        }
        proof {
            assert(out@ =~= self.bytes@);
        }
        out
    }

    /// Returns the secret material as an owned value.
    pub fn get_secret_key(&self) -> (r: SolSecretKey)
        ensures
            r@ == self@,
    {
        SolSecretKey { data: self.to_bytes() }
    }

    /// Signs a message, producing a 64-byte signature determined by this
    /// key's bytes and the message alone.
    pub fn sign(&self, message: &Vec<u8>) -> (r: Vec<u8>)
        ensures
            r@ == sig_of(self@, message@),
            r@.len() == 64,
    {
        proof {
            use_type_invariant(self);
        }
        sign_with_keypair_bytes(&self.bytes, message)
    }
}

/// Secret key material: the 64 raw bytes of a key pair.
#[derive(Debug)]
pub struct SolSecretKey {
    data: Vec<u8>,
}

impl View for SolSecretKey {
    type V = Seq<u8>;

    closed spec fn view(&self) -> Seq<u8> {
        self.data@
    }
}

impl SolSecretKey {
    /// Returns a copy of the raw bytes.
    pub fn to_bytes(&self) -> (r: Vec<u8>)
        ensures
            r@ == self@,
    {
        let mut out: Vec<u8> = Vec::new();
        let mut i: usize = 0;
        while i < self.data.len()
            invariant
                i <= self.data@.len(),
                out@ == self.data@.take(i as int),
            decreases self.data@.len() - i,
        {
            out.push(self.data[i]);
            i = i + 1;
            proof {
                assert(out@ =~= self.data@.take(i as int));
            }
        }
        proof {
            assert(out@ =~= self.data@);
        }
        out
    }
}

/// Key pairs holding the same 64 bytes expose the same public address:
/// persisting a key and loading it back cannot change its address.
pub proof fn lemma_same_bytes_same_address(k1: SolKeyPair, k2: SolKeyPair)
    requires
        k1@ == k2@,
    ensures
        public_address_of(k1@) == public_address_of(k2@),
{
}

/// A key pair's bytes are always accepted when loaded back: the round trip
/// through the 64-byte persisted form succeeds.
pub proof fn lemma_round_trip_loads(k: SolKeyPair)
    requires
        k.wf(),
    ensures
        keypair_valid(k@),
{
}

} // verus!
