//! The token program's mint state, read from the 82 bytes of a mint
//! account: an optional mint authority, the supply, the decimals, the
//! initialization flag, and an optional freeze authority. Each optional
//! authority sits behind a four-byte little-endian presence tag.
use vstd::prelude::*;

use crate::SolError;
use crate::addr::SolPublicKey;

verus! {

/// A token mint's state.
#[derive(Debug)]
pub struct SolMint {
    pub mint_authority: Option<SolPublicKey>,
    pub supply: u64,
    pub decimals: u8,
    pub is_initialized: bool,
    pub freeze_authority: Option<SolPublicKey>,
}

/// The value of eight bytes read as an unsigned little-endian number.
pub open spec fn le64_value(s: Seq<u8>) -> int
    recommends
        s.len() == 8,
{
    s[0] + s[1] * 0x100 + s[2] * 0x10000 + s[3] * 0x1000000 + s[4] * 0x100000000 + s[5]
        * 0x10000000000 + s[6] * 0x1000000000000 + s[7] * 0x100000000000000
}

/// Whether the four bytes at `at` are a valid presence tag: zero or one,
/// little endian.
pub open spec fn option_tag_valid(s: Seq<u8>, at: int) -> bool {
    (s[at] == 0 || s[at] == 1) && s[at + 1] == 0 && s[at + 2] == 0 && s[at + 3] == 0
}

/// Whether the presence tag at `at` marks the value present.
pub open spec fn option_tag_present(s: Seq<u8>, at: int) -> bool {
    s[at] == 1
}

/// Whether 82 bytes lay out a mint: both presence tags valid and the
/// initialization byte zero or one.
pub open spec fn mint_layout_valid(s: Seq<u8>) -> bool {
    &&& s.len() == 82
    &&& option_tag_valid(s, 0)
    &&& (s[45] == 0 || s[45] == 1)
    &&& option_tag_valid(s, 46)
}

/// Whether the laid-out mint is marked initialized.
pub open spec fn mint_initialized(s: Seq<u8>) -> bool {
    s[45] == 1
}

/// Copies `data[start..end]`.
fn copy_range(data: &Vec<u8>, start: usize, end: usize) -> (r: Vec<u8>)
    requires
        start <= end <= data@.len(),
    ensures
        r@ == data@.subrange(start as int, end as int),
{
    let mut out: Vec<u8> = Vec::new();
    let mut i: usize = start;
    while i < end
        invariant
            start <= i <= end,
            end <= data@.len(),
            out@ == data@.subrange(start as int, i as int),
        decreases end - i,
    {
        out.push(data[i]);
        i = i + 1;
        proof {
            assert(out@ =~= data@.subrange(start as int, i as int));
        }
    }
    out
}

/// Reads the four-byte presence tag at `at`; fails unless it is a valid
/// tag.
fn read_option_tag(data: &Vec<u8>, at: usize) -> (r: Result<bool, SolError>)
    requires
        at + 4 <= data@.len(),
        data@.len() <= usize::MAX,
    ensures
        r is Ok <==> option_tag_valid(data@, at as int),
        r matches Ok(present) ==> present == option_tag_present(data@, at as int),
        r matches Err(e) ==> e == SolError::InvalidInput,
{
    let tag = data[at];
    if (tag == 0 || tag == 1) && data[at + 1] == 0 && data[at + 2] == 0 && data[at + 3] == 0 {
        Ok(tag == 1)
    } else {
        Err(SolError::InvalidInput)
    }
}

/// Reads the eight bytes at `at` as an unsigned little-endian number.
fn read_le64(data: &Vec<u8>, at: usize) -> (r: u64)
    requires
        at + 8 <= data@.len(),
        data@.len() <= usize::MAX,
    ensures
        r == le64_value(data@.subrange(at as int, at + 8)),
{
    let b0 = data[at] as u64;
    let b1 = data[at + 1] as u64;
    let b2 = data[at + 2] as u64;
    let b3 = data[at + 3] as u64;
    let b4 = data[at + 4] as u64;
    let b5 = data[at + 5] as u64;
    let b6 = data[at + 6] as u64;
    let b7 = data[at + 7] as u64;
    let r = b0 + b1 * 0x100 + b2 * 0x10000 + b3 * 0x1000000 + b4 * 0x100000000 + b5
        * 0x10000000000 + b6 * 0x1000000000000 + b7 * 0x100000000000000;
    proof {
        let s = data@.subrange(at as int, at + 8);
        assert(s[0] == data@[at as int] && s[1] == data@[at + 1] && s[2] == data@[at + 2] && s[3]
            == data@[at + 3] && s[4] == data@[at + 4] && s[5] == data@[at + 5] && s[6] == data@[at
            + 6] && s[7] == data@[at + 7]);
    }
    r
}

impl SolMint {
    /// Reads a mint's state from the 82 bytes of its account. Fails when
    /// the length is wrong, a presence tag or the initialization byte is
    /// malformed, or the mint is not initialized.
    pub fn unpack(data: &Vec<u8>) -> (r: Result<SolMint, SolError>)
        ensures
            r is Ok <==> mint_layout_valid(data@) && mint_initialized(data@),
            r matches Ok(m) ==> {
                &&& (m.mint_authority is Some <==> option_tag_present(data@, 0))
                &&& (m.mint_authority matches Some(a) ==> a@ == data@.subrange(4, 36))
                &&& m.supply == le64_value(data@.subrange(36, 44))
                &&& m.decimals == data@[44]
                &&& m.is_initialized == true
                &&& (m.freeze_authority is Some <==> option_tag_present(data@, 46))
                &&& (m.freeze_authority matches Some(a) ==> a@ == data@.subrange(50, 82))
            },
            r matches Err(e) ==> e == SolError::InvalidInput,
    {
        if data.len() != 82 {
            return Err(SolError::InvalidInput);
        }
        let authority_present = match read_option_tag(data, 0) {
            Ok(p) => p,
            Err(e) => {
                return Err(e);
            },
        };
        let init_byte = data[45];
        if init_byte > 1 {
            return Err(SolError::InvalidInput);
        }
        let freeze_present = match read_option_tag(data, 46) {
            Ok(p) => p,
            Err(e) => {
                return Err(e);
            },
        };
        if init_byte != 1 {
            return Err(SolError::InvalidInput);
        }
        let mint_authority = if authority_present {
            Some(SolPublicKey::from_fixed_bytes(copy_range(data, 4, 36)))
        } else {
            None
        };
        let freeze_authority = if freeze_present {
            Some(SolPublicKey::from_fixed_bytes(copy_range(data, 50, 82)))
        } else {
            None
        };
        let supply = read_le64(data, 36);
        let decimals = data[44];
        Ok(
            SolMint {
                mint_authority,
                supply,
                decimals,
                is_initialized: true,
                freeze_authority,
            },
        )
    }
}

} // verus!
