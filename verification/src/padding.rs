use vstd::prelude::*;
use vstd::slice::slice_subrange;
use vstd::slice::slice_to_vec;

verus! {

/// `data` followed by `k` copies of the byte `k`, where `k` is the distance
/// to the next multiple of 16 (16 itself when `data` already ends on a block
/// boundary): PKCS#7 padding for a 16-byte block cipher.
pub open spec fn pkcs7_pad(data: Seq<u8>) -> Seq<u8> {
    let k = 16 - (data.len() % 16);
    data + Seq::new(k as nat, |i: int| k as u8)
}

/// Strips PKCS#7 padding: `Some` of the remaining prefix when `data` is a
/// non-empty whole number of 16-byte blocks ending in `k` copies of the byte
/// `k` with `1 <= k <= 16`, `None` otherwise.
pub open spec fn pkcs7_unpad(data: Seq<u8>) -> Option<Seq<u8>> {
    if data.len() == 0 || data.len() % 16 != 0 {
        None
    } else {
        let k = data.last() as int;
        if 1 <= k <= 16 && (forall|i: int|
            data.len() - k <= i < data.len() ==> data[i] == data.last())
        {
            Some(data.take(data.len() - k))
        } else {
            None
        }
    }
}

/// Padding always adds between 1 and 16 bytes and lands on a block boundary.
pub proof fn lemma_pkcs7_pad_len(data: Seq<u8>)
    ensures
        pkcs7_pad(data).len() == data.len() + (16 - (data.len() % 16)),
        pkcs7_pad(data).len() % 16 == 0,
        data.len() < pkcs7_pad(data).len() <= data.len() + 16,
{
    let n = data.len() as int;
    let k = 16 - (n % 16);
    assert((n + k) % 16 == 0) by (nonlinear_arith)
        requires
            n >= 0,
            k == 16 - (n % 16),
    ;
}

/// Stripping the padding that `pkcs7_pad` added yields the original bytes:
/// the padding scheme round-trips for every byte sequence.
pub proof fn lemma_pkcs7_round_trip(data: Seq<u8>)
    ensures
        pkcs7_unpad(pkcs7_pad(data)) == Some(data),
{
    lemma_pkcs7_pad_len(data);
    let n = data.len() as int;
    let k = 16 - (n % 16);
    let padded = pkcs7_pad(data);
    assert(padded.last() == k as u8);
    assert(forall|i: int| padded.len() - k <= i < padded.len() ==> padded[i] == padded.last());
    assert(padded.take(padded.len() - k) =~= data);
}

/// Appends PKCS#7 padding for a 16-byte block cipher.
pub fn apply_pkcs7_padding(data: &[u8]) -> (out: Vec<u8>)
    requires
        data@.len() + 16 <= usize::MAX,
    ensures
        out@ == pkcs7_pad(data@),
{
    let k: usize = 16 - (data.len() % 16);
    let mut out: Vec<u8> = slice_to_vec(data);
    let mut i: usize = 0;
    while i < k
        invariant
            1 <= k <= 16,
            k == 16 - (data@.len() % 16),
            0 <= i <= k,
            out@ == data@ + Seq::new(i as nat, |j: int| k as u8),
        decreases k - i,
    {
        out.push(k as u8);
        proof {
            assert(out@ =~= data@ + Seq::new((i + 1) as nat, |j: int| k as u8));
        }
        i = i + 1;
    }
    proof {
        assert(out@ =~= pkcs7_pad(data@));
    }
    out
}

/// Validates and strips PKCS#7 padding from decrypted bytes.
pub fn strip_pkcs7_padding(data: &[u8]) -> (out: Option<Vec<u8>>)
    ensures
        match out {
            Some(plain) => pkcs7_unpad(data@) == Some(plain@),
            None => pkcs7_unpad(data@) is None,
        },
{
    let n = data.len();
    if n == 0 || n % 16 != 0 {
        return None;
    }
    let last = *vstd::slice::slice_index_get(data, n - 1);
    let k = last as usize;
    if k < 1 || k > 16 {
        return None;
    }
    let mut i: usize = n - k;
    while i < n
        invariant
            n == data@.len(),
            n % 16 == 0,
            16 <= n,
            1 <= k <= 16,
            last == data@.last(),
            k == last as int,
            n - k <= i <= n,
            forall|j: int| n - k <= j < i ==> data@[j] == data@.last(),
        decreases n - i,
    {
        let b = *vstd::slice::slice_index_get(data, i);
        if b != last {
            proof {
                assert(data@[i as int] != data@.last());
            }
            return None;
        }
        i = i + 1;
    }
    Some(slice_to_vec(slice_subrange(data, 0, n - k)))
}

} // verus!
