//! How names become the nul-terminated strings that the platform loader reads.
use vstd::prelude::*;
use crate::err::NulError;

verus! {

/// `s` holds a nul byte.
pub open spec fn has_nul(s: Seq<u8>) -> bool {
    exists|i: int| 0 <= i < s.len() && s[i] == 0u8
}

/// `s` is a well-formed C string: it ends with a nul byte and holds no other.
pub open spec fn is_c_string(s: Seq<u8>) -> bool {
    &&& s.len() > 0
    &&& s.last() == 0u8
    &&& !has_nul(s.drop_last())
}

/// `i` is the index of the first nul byte of `s`.
pub open spec fn is_first_nul(s: Seq<u8>, i: int) -> bool {
    &&& 0 <= i < s.len()
    &&& s[i] == 0u8
    &&& forall|j: int| 0 <= j < i ==> s[j] != 0u8
}

/// What the loader is given for a library name: the name itself when it already
/// ends with a nul byte, else the name with a nul byte appended.
pub open spec fn with_nul(s: Seq<u8>) -> Seq<u8> {
    if s.len() > 0 && s.last() == 0u8 {
        s
    } else {
        s.push(0u8)
    }
}

/// Turns `bytes` into a C string: the bytes followed by a nul byte.
/// Fails, naming the first nul byte, when `bytes` already holds one.
pub fn c_string_new(bytes: &[u8]) -> (r: Result<Vec<u8>, NulError>)
    ensures
        r is Ok <==> !has_nul(bytes@),
        r matches Ok(v) ==> v@ == bytes@.push(0u8),
        r matches Err(e) ==> is_first_nul(bytes@, e.position as int) && e.bytes@ == bytes@,
{
    let mut out: Vec<u8> = Vec::new();
    let mut i: usize = 0;
    while i < bytes.len()
        invariant
            i <= bytes@.len(),
            out@ == bytes@.subrange(0, i as int),
            forall|j: int| 0 <= j < i ==> bytes@[j] != 0u8,
        decreases bytes@.len() - i,
    {
        if bytes[i] == 0u8 {
            let mut all: Vec<u8> = Vec::new();
            let mut k: usize = 0;
            while k < bytes.len()
                invariant
                    k <= bytes@.len(),
                    all@ == bytes@.subrange(0, k as int),
                decreases bytes@.len() - k,
            {
                all.push(bytes[k]);
                k = k + 1;
            }
            assert(all@ == bytes@);
            return Err(NulError { position: i, bytes: all });
        }
        out.push(bytes[i]);
        i = i + 1;
    }
    assert(out@ == bytes@);
    out.push(0u8);
    Ok(out)
}

/// The name that the loader is given for a library: `name` as it is when it
/// already ends with a nul byte, else `name` with a nul byte appended.
pub fn lib_name_with_nul(name: &[u8]) -> (r: Vec<u8>)
    ensures
        r@ == with_nul(name@),
{
    let n: usize = name.len();
    let mut out: Vec<u8> = Vec::new();
    let mut i: usize = 0;
    while i < n
        invariant
            n == name@.len(),
            i <= n,
            out@ == name@.subrange(0, i as int),
        decreases n - i,
    {
        out.push(name[i]);
        i = i + 1;
    }
    assert(out@ == name@);
    if n > 0 && name[n - 1] == 0u8 {
        out
    } else {
        out.push(0u8);
        out
    }
}

/// A name without nul bytes becomes a well-formed C string, from which the name
/// is read back by dropping the final nul byte.
pub proof fn lemma_c_string_well_formed(bytes: Seq<u8>)
    requires
        !has_nul(bytes),
    ensures
        is_c_string(bytes.push(0u8)),
        bytes.push(0u8).drop_last() == bytes,
{
    assert(bytes.push(0u8).drop_last() =~= bytes);
}

/// Every name handed to the loader ends with a nul byte.
pub proof fn lemma_with_nul_terminated(s: Seq<u8>)
    ensures
        with_nul(s).len() > 0,
        with_nul(s).last() == 0u8,
{
}

/// Preparing a name twice gives what preparing it once gives.
pub proof fn lemma_with_nul_idempotent(s: Seq<u8>)
    ensures
        with_nul(with_nul(s)) == with_nul(s),
{
}

/// A well-formed C string is handed to the loader unchanged, and a name without
/// nul bytes is handed over as the C string that `c_string_new` makes of it.
pub proof fn lemma_with_nul_agrees_with_c_string(s: Seq<u8>)
    ensures
        is_c_string(s) ==> with_nul(s) == s,
        !has_nul(s) ==> with_nul(s) == s.push(0u8),
{
    if !has_nul(s) && s.len() > 0 {
        assert(s[s.len() - 1] == s.last());
    }
}

} // verus!
