//! The favorite selector: picking the newest stored image.
//!
//! "Newest" means greatest file name under byte-wise lexicographic
//! comparison of the raw name bytes, not a calendar-aware comparison: with
//! the `YYYY-MM-DD.{ext}` naming invariant this is a safer proxy for the
//! most recent entry on disk than today's date, since publication does not
//! align with local midnight.

use vstd::prelude::*;
use crate::error::ApodError;

verus! {

/// Byte-wise lexicographic order on raw file names.
pub open spec fn lex_le(a: Seq<u8>, b: Seq<u8>) -> bool
    decreases a.len(),
{
    if a.len() == 0 {
        true
    } else if b.len() == 0 {
        false
    } else if a.first() < b.first() {
        true
    } else if a.first() > b.first() {
        false
    } else {
        lex_le(a.drop_first(), b.drop_first())
    }
}

/// `best` is one of the names and is greatest among them.
pub open spec fn is_newest(names: Seq<Vec<u8>>, best: Seq<u8>) -> bool {
    &&& exists|i: int| 0 <= i < names.len() && names[i]@ == best
    &&& forall|j: int| 0 <= j < names.len() ==> lex_le(#[trigger] names[j]@, best)
}

/// The order is reflexive.
pub proof fn lemma_lex_refl(a: Seq<u8>)
    ensures
        lex_le(a, a),
    decreases a.len(),
{
    if a.len() > 0 {
        lemma_lex_refl(a.drop_first());
    }
}

/// The order is total: any two names compare.
pub proof fn lemma_lex_total(a: Seq<u8>, b: Seq<u8>)
    ensures
        lex_le(a, b) || lex_le(b, a),
    decreases a.len(),
{
    if a.len() > 0 && b.len() > 0 && a.first() == b.first() {
        lemma_lex_total(a.drop_first(), b.drop_first());
    }
}

/// The order is transitive.
pub proof fn lemma_lex_trans(a: Seq<u8>, b: Seq<u8>, c: Seq<u8>)
    requires
        lex_le(a, b),
        lex_le(b, c),
    ensures
        lex_le(a, c),
    decreases a.len(),
{
    if a.len() > 0 && b.len() > 0 && c.len() > 0 && a.first() == b.first() && b.first()
        == c.first() {
        lemma_lex_trans(a.drop_first(), b.drop_first(), c.drop_first());
    }
}

/// Decides `lex_le` on two raw names.
pub fn lex_le_exec(a: &Vec<u8>, b: &Vec<u8>) -> (r: bool)
    ensures
        r == lex_le(a@, b@),
{
    let mut i: usize = 0;
    while i < a.len() && i < b.len()
        invariant
            0 <= i <= a@.len(),
            0 <= i <= b@.len(),
            forall|j: int| 0 <= j < i ==> a@[j] == b@[j],
        decreases a@.len() - i,
    {
        let x = a[i];
        let y = b[i];
        if x < y {
            proof {
                lemma_lex_suffix(a@, b@, i as int);
                assert(a@.skip(i as int).first() == x);
                assert(b@.skip(i as int).first() == y);
            }
            return true;
        }
        if x > y {
            proof {
                lemma_lex_suffix(a@, b@, i as int);
                assert(a@.skip(i as int).first() == x);
                assert(b@.skip(i as int).first() == y);
            }
            return false;
        }
        i = i + 1;
    }
    proof {
        lemma_lex_suffix(a@, b@, i as int);
        if i == a.len() {
            assert(a@.skip(i as int).len() == 0);
        } else {
            assert(b@.skip(i as int).len() == 0);
            assert(a@.skip(i as int).len() > 0);
        }
    }
    a.len() <= b.len()
}

/// Comparing two names whose first `i` bytes agree is comparing their
/// suffixes from `i`.
proof fn lemma_lex_suffix(a: Seq<u8>, b: Seq<u8>, i: int)
    requires
        0 <= i <= a.len(),
        i <= b.len(),
        forall|j: int| 0 <= j < i ==> a[j] == b[j],
    ensures
        lex_le(a, b) == lex_le(a.skip(i), b.skip(i)),
    decreases i,
{
    if i > 0 {
        assert(a.first() == b.first());
        lemma_lex_suffix(a.drop_first(), b.drop_first(), i - 1);
        assert(a.drop_first().skip(i - 1) =~= a.skip(i));
        assert(b.drop_first().skip(i - 1) =~= b.skip(i));
    } else {
        assert(a.skip(0) =~= a);
        assert(b.skip(0) =~= b);
    }
}

/// An owned copy of a raw name.
fn copy_bytes(src: &Vec<u8>) -> (r: Vec<u8>)
    ensures
        r@ == src@,
{
    let mut v: Vec<u8> = Vec::new();
    let mut k: usize = 0;
    while k < src.len()
        invariant
            0 <= k <= src@.len(),
            v@ == src@.take(k as int),
        decreases src@.len() - k,
    {
        v.push(src[k]);
        proof {
            assert(src@.take(k + 1) =~= src@.take(k as int).push(src@[k as int]));
        }
        k = k + 1;
    }
    proof {
        assert(src@.take(src@.len() as int) =~= src@);
    }
    v
}

/// Selects the newest entry of the storage directory: the name that is
/// greatest under byte-wise comparison. Fails with `DirectoryError` exactly
/// when the listing is empty.
pub fn select_newest(names: &Vec<Vec<u8>>) -> (r: Result<Vec<u8>, ApodError>)
    ensures
        match r {
            Ok(best) => is_newest(names@, best@),
            Err(e) => e == ApodError::DirectoryError && names@.len() == 0,
        },
{
    if names.len() == 0 {
        return Err(ApodError::DirectoryError);
    }
    let mut best: Vec<u8> = copy_bytes(&names[0]);
    let mut k: usize = 1;
    proof {
        lemma_lex_refl(best@);
    }
    while k < names.len()
        invariant
            1 <= k <= names@.len(),
            exists|i: int| 0 <= i < k && names@[i]@ == best@,
            forall|j: int| 0 <= j < k ==> lex_le(#[trigger] names@[j]@, best@),
        decreases names@.len() - k,
    {
        if !lex_le_exec(&names[k], &best) {
            proof {
                lemma_lex_total(names@[k as int]@, best@);
                assert forall|j: int| 0 <= j < k + 1 implies lex_le(
                    #[trigger] names@[j]@,
                    names@[k as int]@,
                ) by {
                    if j < k {
                        lemma_lex_trans(names@[j]@, best@, names@[k as int]@);
                    } else {
                        lemma_lex_refl(names@[k as int]@);
                    }
                }
            }
            best = copy_bytes(&names[k]);
        }
        k = k + 1;
    }
    Ok(best)
}

} // verus!
