//! Classification of gateway failures from their transport class and
//! message text, and the small parsers the gateway flows need: decimal
//! balances and account-data slices.
use vstd::prelude::*;

use crate::provision::GatewayError;

verus! {

/// Whether `n` occurs as a contiguous run inside `h` at position `i`.
pub open spec fn contains_at(h: Seq<u8>, n: Seq<u8>, i: int) -> bool {
    0 <= i && i + n.len() <= h.len() && h.subrange(i, i + n.len()) == n
}

/// Whether `n` occurs as a contiguous run anywhere inside `h`.
pub open spec fn contains_subseq(h: Seq<u8>, n: Seq<u8>) -> bool {
    exists|i: int| contains_at(h, n, i)
}

/// Decides whether `n` occurs as a contiguous run inside `h`.
pub fn find_subseq(h: &Vec<u8>, n: &Vec<u8>) -> (r: bool)
    ensures
        r == contains_subseq(h@, n@),
{
    if n.len() > h.len() {
        return false;
    }
    if n.len() == 0 {
        proof {
            assert(h@.subrange(0, 0) =~= n@);
            assert(contains_at(h@, n@, 0));
        }
        return true;
    }
    let hlen: usize = h.len();
    let bound: usize = h.len() - n.len();
    let mut i: usize = 0;
    while i <= bound
        invariant
            1 <= n@.len() <= h@.len(),
            h@.len() == hlen,
            bound == h@.len() - n@.len(),
            i <= bound + 1,
            forall|q: int| 0 <= q < i ==> !contains_at(h@, n@, q),
        decreases bound + 1 - i,
    {
        let mut j: usize = 0;
        let mut mismatch = false;
        while j < n.len()
            invariant
                i + n@.len() <= h@.len(),
                h@.len() == hlen,
                j <= n@.len(),
                !mismatch ==> forall|k: int| 0 <= k < j ==> h@[i + k] == n@[k],
                mismatch ==> !contains_at(h@, n@, i as int),
            decreases n@.len() - j,
        {
            if h[i + j] != n[j] {
                proof {
                    assert(h@.subrange(i as int, i + n@.len())[j as int] == h@[i + j]);
                }
                mismatch = true;
                j = n.len();
            } else {
                j = j + 1;
            }
        }
        if !mismatch {
            proof {
                assert(h@.subrange(i as int, i + n@.len()) =~= n@);
                assert(contains_at(h@, n@, i as int));
            }
            return true;
        }
        i = i + 1;
    }
    proof {
        if contains_subseq(h@, n@) {
            let q = choose|q: int| contains_at(h@, n@, q);
            assert(q <= bound);
        }
    }
    false
}

/// The message text a ledger reports when a creation raced a concurrent
/// creator: the account is already in use.
pub open spec fn already_in_use_pattern() -> Seq<u8> {
    seq![
        97u8, 108u8, 114u8, 101u8, 97u8, 100u8, 121u8, 32u8, 105u8, 110u8, 32u8, 117u8, 115u8,
        101u8,
    ]
}

/// The message text a gateway reports of an entity that does not exist.
pub open spec fn not_found_pattern() -> Seq<u8> {
    seq![110u8, 111u8, 116u8, 32u8, 102u8, 111u8, 117u8, 110u8, 100u8]
}

/// How a gateway failure classifies: a message naming an account already
/// in use is `AlreadyExists` whatever carried it; a transport-level
/// failure is `Transient` and safe to retry; a message reporting something
/// not found is `NotFound`; anything else is `Fatal`.
pub open spec fn spec_classify_gateway_error(transport: bool, msg: Seq<u8>) -> GatewayError {
    if contains_subseq(msg, already_in_use_pattern()) {
        GatewayError::AlreadyExists
    } else if transport {
        GatewayError::Transient
    } else if contains_subseq(msg, not_found_pattern()) {
        GatewayError::NotFound
    } else {
        GatewayError::Fatal
    }
}

/// Returns the bytes of the already-in-use message text.
fn already_in_use_needle() -> (r: Vec<u8>)
    ensures
        r@ == already_in_use_pattern(),
{
    let a: [u8; 14] = [97, 108, 114, 101, 97, 100, 121, 32, 105, 110, 32, 117, 115, 101];
    let v = vstd::slice::slice_to_vec(a.as_slice());
    proof {
        assert(v@ =~= already_in_use_pattern());
    }
    v
}

/// Returns the bytes of the not-found message text.
fn not_found_needle() -> (r: Vec<u8>)
    ensures
        r@ == not_found_pattern(),
{
    let a: [u8; 9] = [110, 111, 116, 32, 102, 111, 117, 110, 100];
    let v = vstd::slice::slice_to_vec(a.as_slice());
    proof {
        assert(v@ =~= not_found_pattern());
    }
    v
}

/// Classifies a gateway failure from whether it was a transport-level
/// failure and from the message text it carried.
pub fn classify_gateway_error(transport: bool, message: &Vec<u8>) -> (r: GatewayError)
    ensures
        r == spec_classify_gateway_error(transport, message@),
{
    let in_use = already_in_use_needle();
    if find_subseq(message, &in_use) {
        GatewayError::AlreadyExists
    } else if transport {
        GatewayError::Transient
    } else {
        let nf = not_found_needle();
        if find_subseq(message, &nf) {
            GatewayError::NotFound
        } else {
            GatewayError::Fatal
        }
    }
}

/// Whether a byte is a decimal digit.
pub open spec fn is_decimal_digit(b: u8) -> bool {
    48 <= b <= 57
}

/// Whether every byte of the sequence is a decimal digit.
pub open spec fn all_digits(s: Seq<u8>) -> bool {
    forall|i: int| 0 <= i < s.len() ==> is_decimal_digit(#[trigger] s[i])
}

/// The value of a sequence of decimal digits, most significant first.
pub open spec fn decimal_value(s: Seq<u8>) -> int
    decreases s.len(),
{
    if s.len() == 0 {
        0
    } else {
        decimal_value(s.drop_last()) * 10 + (s.last() - 48)
    }
}

/// The value of a digit sequence is never negative.
proof fn lemma_decimal_nonneg(s: Seq<u8>)
    requires
        all_digits(s),
    ensures
        decimal_value(s) >= 0,
    decreases s.len(),
{
    if s.len() > 0 {
        assert(all_digits(s.drop_last()));
        lemma_decimal_nonneg(s.drop_last());
    }
}

/// A digit sequence is worth at least any of its prefixes.
proof fn lemma_decimal_prefix_le(s: Seq<u8>, i: int)
    requires
        all_digits(s),
        0 <= i <= s.len(),
    ensures
        decimal_value(s.take(i)) <= decimal_value(s),
    decreases s.len() - i,
{
    if i < s.len() {
        assert(all_digits(s.take(i))) by {
            assert(forall|k: int| 0 <= k < i ==> s.take(i)[k] == s[k]);
        }
        lemma_decimal_nonneg(s.take(i));
        assert(s.take(i + 1).drop_last() =~= s.take(i));
        assert(decimal_value(s.take(i + 1)) == decimal_value(s.take(i)) * 10 + (s[i] - 48));
        lemma_decimal_prefix_le(s, i + 1);
    } else {
        assert(s.take(i) =~= s);
    }
}

/// Parses an unsigned decimal number: some value exactly when the input is
/// a nonempty run of digits whose value fits in 64 bits.
pub fn parse_u64_decimal(s: &Vec<u8>) -> (r: Option<u64>)
    ensures
        r matches Some(v) ==> s@.len() > 0 && all_digits(s@) && v == decimal_value(s@),
        r is None <==> (s@.len() == 0 || !all_digits(s@) || decimal_value(s@) > u64::MAX),
{
    if s.len() == 0 {
        return None;
    }
    let mut acc: u64 = 0;
    let mut i: usize = 0;
    while i < s.len()
        invariant
            i <= s@.len(),
            all_digits(s@.take(i as int)),
            acc == decimal_value(s@.take(i as int)),
        decreases s@.len() - i,
    {
        let b = s[i];
        if b < 48 || b > 57 {
            assert(!is_decimal_digit(s@[i as int]));
            return None;
        }
        let d: u64 = (b - 48) as u64;
        proof {
            assert(s@.take(i + 1 as int).drop_last() =~= s@.take(i as int));
            assert(all_digits(s@.take(i + 1 as int))) by {
                assert(forall|k: int|
                    0 <= k < i ==> s@.take(i + 1 as int)[k] == s@.take(i as int)[k]);
            }
        }
        if acc > (u64::MAX - d) / 10 {
            proof {
                assert(acc * 10 + d > u64::MAX) by (nonlinear_arith)
                    requires
                        acc > (u64::MAX - d) / 10,
                        d <= 9,
                        acc <= u64::MAX,
                {
                }
                assert(decimal_value(s@.take(i + 1 as int)) > u64::MAX);
                if all_digits(s@) {
                    lemma_decimal_prefix_le(s@, i + 1 as int);
                }
            }
            return None;
        }
        acc = acc * 10 + d;
        i = i + 1;
    }
    proof {
        assert(s@.take(s@.len() as int) =~= s@);
    }
    Some(acc)
}

/// Copies the account bytes past `offset`, at most `max_len` of them:
/// some slice exactly when the data reaches past the offset.
pub fn extract_account_data(data: &Vec<u8>, offset: usize, max_len: usize) -> (r: Option<Vec<u8>>)
    ensures
        r is Some <==> offset < data@.len(),
        r matches Some(v) ==> {
            &&& v@.len() == if data@.len() - offset < max_len {
                data@.len() - offset
            } else {
                max_len as int
            }
            &&& v@ == data@.subrange(offset as int, offset + v@.len())
        },
{
    if offset >= data.len() {
        return None;
    }
    let avail: usize = data.len() - offset;
    let count: usize = if avail < max_len {
        avail
    } else {
        max_len
    };
    let dlen: usize = data.len();
    let mut out: Vec<u8> = Vec::new();
    let mut i: usize = 0;
    while i < count
        invariant
            offset + count <= data@.len(),
            data@.len() == dlen,
            i <= count,
            out@ == data@.subrange(offset as int, offset + i),
        decreases count - i,
    {
        out.push(data[offset + i]);
        i = i + 1;
        proof {
            assert(out@ =~= data@.subrange(offset as int, offset + i));
        }
    }
    Some(out)
}

} // verus!
