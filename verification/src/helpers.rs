//! Small pure helpers for preparing request payloads.

use vstd::prelude::*;

use vstd::slice::slice_to_vec;
use vstd::string::StringSliceAdditionalSpecFns;

use crate::types::Error;

verus! {

/// The byte `b':'` separating a key from a value.
pub const KEY_VALUE_SEPARATOR: u8 = 58;

/// A payload body from a string: its UTF-8 bytes.
pub fn data_from_str(s: &str) -> (r: Vec<u8>)
    ensures
        r@ == s.spec_bytes(),
{
    slice_to_vec(s.as_bytes())
}

/// How many separator bytes occur in `s`.
pub open spec fn sep_count(s: Seq<u8>) -> int
    decreases s.len(),
{
    if s.len() == 0 {
        0
    } else {
        sep_count(s.drop_last()) + if s.last() == KEY_VALUE_SEPARATOR {
            1int
        } else {
            0int
        }
    }
}

/// Separator occurrences add up over concatenation.
proof fn lemma_sep_count_add(a: Seq<u8>, b: Seq<u8>)
    ensures
        sep_count(a + b) == sep_count(a) + sep_count(b),
    decreases b.len(),
{
    if b.len() == 0 {
        assert(a + b =~= a);
    } else {
        lemma_sep_count_add(a, b.drop_last());
        assert((a + b).drop_last() =~= a + b.drop_last());
    }
}

/// Split a `key:value` byte string at its separator. The split is
/// accepted exactly when the input holds exactly one separator; the key
/// is everything before it and the value everything after, and a
/// malformed input is a caller error.
#[verifier::loop_isolation(false)]
pub fn split_key_value(from: &Vec<u8>) -> (r: Result<(Vec<u8>, Vec<u8>), Error>)
    ensures
        r is Ok <==> sep_count(from@) == 1,
        r matches Ok((k, v)) ==> {
            &&& from@ == k@ + seq![KEY_VALUE_SEPARATOR] + v@
            &&& sep_count(k@) == 0
            &&& sep_count(v@) == 0
        },
        r matches Err(e) ==> e == Error::InvalidIdentifier,
{
    let n = from.len();
    let mut count: usize = 0;
    let mut pos: usize = 0;
    let mut i: usize = 0;
    while i < n
        invariant
            i <= n,
            count == sep_count(from@.take(i as int)),
            count <= i,
            count > 0 ==> {
                &&& pos < i
                &&& from@[pos as int] == KEY_VALUE_SEPARATOR
                &&& sep_count(from@.take(pos as int)) == 0
            },
        decreases n - i,
    {
        proof {
            assert(from@.take(i as int + 1).drop_last() =~= from@.take(i as int));
            assert(from@.take(i as int + 1).last() == from@[i as int]);
        }
        if from[i] == KEY_VALUE_SEPARATOR {
            if count == 0 {
                pos = i;
            }
            count = count + 1;
        }
        i += 1;
    }
    proof {
        assert(from@.take(n as int) =~= from@);
    }
    if count != 1 {
        return Err(Error::InvalidIdentifier);
    }
    let mut key: Vec<u8> = Vec::new();
    let mut j: usize = 0;
    while j < pos
        invariant
            j <= pos < n,
            key@ == from@.take(pos as int).take(j as int),
        decreases pos - j,
    {
        proof {
            assert(from@.take(pos as int).take(j as int + 1) =~= from@.take(pos as int).take(
                j as int,
            ).push(from@[j as int]));
        }
        key.push(from[j]);
        j += 1;
    }
    let mut value: Vec<u8> = Vec::new();
    let mut m: usize = pos + 1;
    while m < n
        invariant
            pos < m <= n,
            value@ == from@.subrange(pos as int + 1, m as int),
        decreases n - m,
    {
        proof {
            assert(from@.subrange(pos as int + 1, m as int + 1) =~= from@.subrange(
                pos as int + 1,
                m as int,
            ).push(from@[m as int]));
        }
        value.push(from[m]);
        m += 1;
    }
    proof {
        assert(key@ =~= from@.take(pos as int));
        assert(from@ =~= key@ + seq![KEY_VALUE_SEPARATOR] + value@);
        lemma_sep_count_add(key@ + seq![KEY_VALUE_SEPARATOR], value@);
        lemma_sep_count_add(key@, seq![KEY_VALUE_SEPARATOR]);
        let s1: Seq<u8> = seq![KEY_VALUE_SEPARATOR];
        assert(s1.drop_last() =~= Seq::<u8>::empty());
        assert(sep_count(Seq::<u8>::empty()) == 0);
        assert(s1.last() == KEY_VALUE_SEPARATOR);
        assert(sep_count(s1) == sep_count(s1.drop_last()) + 1);
    }
    Ok((key, value))
}

} // verus!
