//! 32-byte ledger addresses: construction, byte equality, the well-known
//! program identifiers, and conversion to and from base58 text.
use vstd::prelude::*;

use crate::SolError;
use solana_program::pubkey::Pubkey;
use std::str::FromStr;

verus! {

/// A 32-byte account identifier on the ledger; a value type compared by
/// byte equality.
#[derive(Debug)]
pub struct SolPublicKey {
    bytes: Vec<u8>,
}

impl View for SolPublicKey {
    type V = Seq<u8>;

    closed spec fn view(&self) -> Seq<u8> {
        self.bytes@
    }
}

impl SolPublicKey {
    /// Well-formedness: an address holds exactly 32 bytes. Maintained by
    /// every constructor, so it holds of every value of the type.
    #[verifier::type_invariant]
    pub closed spec fn wf(self) -> bool {
        self.bytes@.len() == 32
    }

    /// A well-formed address holds exactly 32 bytes.
    pub proof fn lemma_wf_len(&self)
        requires
            self.wf(),
        ensures
            self@.len() == 32,
    {
    }

    /// Returns a copy of this address with the same bytes.
    pub fn duplicate(&self) -> (r: SolPublicKey)
        ensures
            r@ == self@,
    {
        proof {
            use_type_invariant(self);
        }
        SolPublicKey { bytes: self.to_bytes() }
    }

    /// Builds an address from raw bytes; rejects any length but 32.
    pub fn from_bytes(bytes: Vec<u8>) -> (r: Result<SolPublicKey, SolError>)
        ensures
            r is Ok <==> bytes@.len() == 32,
            r matches Ok(a) ==> a@ == bytes@,
            r matches Err(e) ==> e == SolError::InvalidInput,
    {
        if bytes.len() == 32 {
            Ok(SolPublicKey { bytes })
        } else {
            Err(SolError::InvalidInput)
        }
    }

    /// Builds an address from bytes already known to number 32.
    pub fn from_fixed_bytes(bytes: Vec<u8>) -> (r: SolPublicKey)
        requires
            bytes@.len() == 32,
        ensures
            r@ == bytes@,
    {
        SolPublicKey { bytes }
    }

    /// Returns a copy of the 32 bytes.
    pub fn to_bytes(&self) -> (r: Vec<u8>)
        ensures
            r@ == self@,
    {
        let mut out: Vec<u8> = Vec::new();
        let mut i: usize = 0;
        while i < self.bytes.len()
            invariant
                i <= self.bytes@.len(),
                out@ == self.bytes@.take(i as int),
            decreases self.bytes@.len() - i,
        {
            out.push(self.bytes[i]);
            i = i + 1;
            proof {
                assert(out@ =~= self.bytes@.take(i as int));
            }
        }
        proof {
            assert(out@ =~= self.bytes@);
        }
        out
    }
}

impl PartialEq for SolPublicKey {
    /// Byte equality of the two 32-byte values.
    fn eq(&self, other: &Self) -> (r: bool) {
        vec_u8_eq(&self.bytes, &other.bytes)
    }
}

impl Eq for SolPublicKey {}

impl vstd::std_specs::cmp::PartialEqSpecImpl for SolPublicKey {
    open spec fn obeys_eq_spec() -> bool {
        true
    }

    open spec fn eq_spec(&self, other: &Self) -> bool {
        self@ == other@
    }
}

impl SolPublicKey {
    /// Byte equality with another address.
    pub fn same_address(&self, other: &SolPublicKey) -> (r: bool)
        ensures
            r == (self@ == other@),
    {
        vec_u8_eq(&self.bytes, &other.bytes)
    }
}

/// Returns a copy of a byte vector.
pub fn copy_bytes(src: &Vec<u8>) -> (r: Vec<u8>)
    ensures
        r@ == src@,
{
    let mut out: Vec<u8> = Vec::new();
    let mut i: usize = 0;
    while i < src.len()
        invariant
            i <= src@.len(),
            out@ == src@.take(i as int),
        decreases src@.len() - i,
    {
        out.push(src[i]);
        i = i + 1;
        proof {
            assert(out@ =~= src@.take(i as int));
        }
    }
    proof {
        assert(out@ =~= src@);
    }
    out
}

/// Element-wise equality of two byte vectors.
pub fn vec_u8_eq(a: &Vec<u8>, b: &Vec<u8>) -> (r: bool)
    ensures
        r == (a@ == b@),
{
    if a.len() != b.len() {
        assert(a@ != b@);
        return false;
    }
    let mut i: usize = 0;
    while i < a.len()
        invariant
            i <= a@.len(),
            a@.len() == b@.len(),
            forall|j: int| 0 <= j < i ==> a@[j] == b@[j],
        decreases a@.len() - i,
    {
        if a[i] != b[i] {
            assert(a@ != b@);
            return false;
        }
        i = i + 1;
    }
    proof {
        assert(a@ =~= b@);
    }
    true
}

/// The system program's identifier: 32 zero bytes.
pub open spec fn system_program_id_spec() -> Seq<u8> {
    Seq::new(32, |i: int| 0u8)
}

/// Returns the system program's address.
pub fn system_program_id() -> (r: SolPublicKey)
    ensures
        r@ == system_program_id_spec(),
{
    let bytes: Vec<u8> = vec![0u8; 32];
    proof {
        assert(bytes@ =~= system_program_id_spec());
    }
    SolPublicKey { bytes }
}

/// The token program's identifier.
pub open spec fn spl_token_program_id_spec() -> Seq<u8> {
    seq![
        6u8, 221u8, 246u8, 225u8, 215u8, 101u8, 161u8, 147u8,
        217u8, 203u8, 225u8, 70u8, 206u8, 235u8, 121u8, 172u8,
        28u8, 180u8, 133u8, 237u8, 95u8, 91u8, 55u8, 145u8,
        58u8, 140u8, 245u8, 133u8, 126u8, 255u8, 0u8, 169u8,
    ]
}

/// Returns the token program's address.
pub fn spl_token_program_id() -> (r: SolPublicKey)
    ensures
        r@ == spl_token_program_id_spec(),
{
    let a: [u8; 32] = [
        6, 221, 246, 225, 215, 101, 161, 147, 217, 203, 225, 70, 206, 235, 121, 172, 28, 180, 133,
        237, 95, 91, 55, 145, 58, 140, 245, 133, 126, 255, 0, 169,
    ];
    let bytes = vstd::slice::slice_to_vec(a.as_slice());
    proof {
        assert(bytes@ =~= spl_token_program_id_spec());
    }
    SolPublicKey { bytes }
}

/// The associated-token-account program's identifier.
pub open spec fn ata_program_id_spec() -> Seq<u8> {
    seq![
        140u8, 151u8, 37u8, 143u8, 78u8, 36u8, 137u8, 241u8,
        187u8, 61u8, 16u8, 41u8, 20u8, 142u8, 13u8, 131u8,
        11u8, 90u8, 19u8, 153u8, 218u8, 255u8, 16u8, 132u8,
        4u8, 142u8, 123u8, 216u8, 219u8, 233u8, 248u8, 89u8,
    ]
}

/// Returns the associated-token-account program's address.
pub fn ata_program_id() -> (r: SolPublicKey)
    ensures
        r@ == ata_program_id_spec(),
{
    let a: [u8; 32] = [
        140, 151, 37, 143, 78, 36, 137, 241, 187, 61, 16, 41, 20, 142, 13, 131, 11, 90, 19, 153,
        218, 255, 16, 132, 4, 142, 123, 216, 219, 233, 248, 89,
    ];
    let bytes = vstd::slice::slice_to_vec(a.as_slice());
    proof {
        assert(bytes@ =~= ata_program_id_spec());
    }
    SolPublicKey { bytes }
}

/// The rent sysvar's identifier.
pub open spec fn rent_sysvar_id_spec() -> Seq<u8> {
    seq![
        6u8, 167u8, 213u8, 23u8, 25u8, 44u8, 92u8, 81u8,
        33u8, 140u8, 201u8, 76u8, 61u8, 74u8, 241u8, 127u8,
        88u8, 218u8, 238u8, 8u8, 155u8, 161u8, 253u8, 68u8,
        227u8, 219u8, 217u8, 138u8, 0u8, 0u8, 0u8, 0u8,
    ]
}

/// Returns the rent sysvar's address.
pub fn rent_sysvar_id() -> (r: SolPublicKey)
    ensures
        r@ == rent_sysvar_id_spec(),
{
    let a: [u8; 32] = [
        6, 167, 213, 23, 25, 44, 92, 81, 33, 140, 201, 76, 61, 74, 241, 127, 88, 218, 238, 8, 155,
        161, 253, 68, 227, 219, 217, 138, 0, 0, 0, 0,
    ];
    let bytes = vstd::slice::slice_to_vec(a.as_slice());
    proof {
        assert(bytes@ =~= rent_sysvar_id_spec());
    }
    SolPublicKey { bytes }
}

/// What base58 parsing yields for a given text: the 32 decoded bytes, or
/// nothing when the text is not the base58 form of exactly 32 bytes.
pub uninterp spec fn parsed_address_of(text: Seq<char>) -> Option<Seq<u8>>;

/// Relies on solana_program::pubkey::Pubkey::from_str: base58-decodes the
/// text, succeeding exactly when the decoding yields 32 bytes; the result
/// depends on the text alone.
#[verifier::external_body]
fn parse_pubkey_text(text: &str) -> (r: Option<Vec<u8>>)
    ensures
        r matches Some(v) ==> parsed_address_of(text@) == Some(v@) && v@.len() == 32,
        r is None ==> parsed_address_of(text@) is None,
{
    match Pubkey::from_str(text) {
        Ok(p) => Some(p.to_bytes().to_vec()),
        Err(_) => None,
    }
}

/// The base58 text of the 32 bytes; a pure function of the bytes alone.
pub uninterp spec fn address_text_of(addr: Seq<u8>) -> Seq<char>;

/// Relies on Pubkey's Display impl: base58-encodes the 32 bytes; the text
/// depends on the bytes alone. Pubkey::from_str parses the rendered text
/// back to exactly these 32 bytes: base58 encoding and decoding are
/// mutually inverse, and 32 bytes encode within the 44-character cap the
/// parser allows.
#[verifier::external_body]
fn pubkey_display_text(bytes: &Vec<u8>) -> (r: String)
    requires
        bytes@.len() == 32,
    ensures
        r@ == address_text_of(bytes@),
        parsed_address_of(r@) == Some(bytes@),
{
    let arr: [u8; 32] = bytes.as_slice().try_into().unwrap();
    Pubkey::new_from_array(arr).to_string()
}

impl SolPublicKey {
    /// Parses an address from its base58 text form.
    pub fn parse_address(text: &str) -> (r: Result<SolPublicKey, SolError>)
        ensures
            r is Ok <==> parsed_address_of(text@) is Some,
            r matches Ok(a) ==> parsed_address_of(text@) == Some(a@),
            r matches Err(e) ==> e == SolError::InvalidInput,
    {
        match parse_pubkey_text(text) {
            Some(v) => Ok(SolPublicKey::from_fixed_bytes(v)),
            None => Err(SolError::InvalidInput),
        }
    }

    /// Renders this address as base58 text; parsing the text back yields
    /// exactly this address.
    pub fn to_text(&self) -> (r: String)
        ensures
            r@ == address_text_of(self@),
            parsed_address_of(r@) == Some(self@),
    {
        proof {
            use_type_invariant(self);
            self.lemma_wf_len();
        }
        pubkey_display_text(&self.bytes)
    }
}

} // verus!
