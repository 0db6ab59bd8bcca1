//! Batch validation: every replacement's before and after bytes have equal length.
use vstd::prelude::*;
use crate::model::{batch_view, Patch, PatchView, ReplacementView};
use crate::text::push_dec;

verus! {

/// A replacement whose before and after bytes differ in length.
pub open spec fn mismatched(r: ReplacementView) -> bool {
    r.before.len() != r.after.len()
}

/// No replacement of the patch is mismatched.
pub open spec fn patch_matches(p: PatchView) -> bool {
    forall|j: int| 0 <= j < p.replacements.len() ==> !mismatched(#[trigger] p.replacements[j])
}

/// No replacement of any patch of the batch is mismatched.
pub open spec fn batch_matches(ps: Seq<PatchView>) -> bool {
    forall|i: int| 0 <= i < ps.len() ==> patch_matches(#[trigger] ps[i])
}

/// Replacement `j` of patch `i` is the first mismatched one, in patch order
/// and then in replacement order.
pub open spec fn first_mismatch(ps: Seq<PatchView>, i: int, j: int) -> bool {
    &&& 0 <= i < ps.len()
    &&& 0 <= j < ps[i].replacements.len()
    &&& mismatched(ps[i].replacements[j])
    &&& batch_matches(ps.take(i))
    &&& forall|k: int| 0 <= k < j ==> !mismatched(#[trigger] ps[i].replacements[k])
}

/// The first length mismatch of a batch: the replacement's address and the
/// owning patch's title.
#[derive(Debug)]
pub struct LengthMismatch {
    pub addr: u32,
    pub title: String,
}

impl LengthMismatch {
    /// `replacement at addr {addr} for {title} has length mismatch`, the
    /// address in decimal.
    pub fn message(&self) -> (r: String)
        ensures
            r@ == "replacement at addr "@ + crate::text::dec_of(self.addr as nat) + " for "@
                + self.title@ + " has length mismatch"@,
    {
        let mut s = String::from_str("replacement at addr ");
        push_dec(&mut s, self.addr as u64);
        s.append(" for ");
        s.append(self.title.as_str());
        s.append(" has length mismatch");
        s
    }
}

/// Checks every replacement of every patch, in order, and stops at the first
/// whose before and after bytes differ in length.
pub fn validate(patches: &[Patch]) -> (r: Result<(), LengthMismatch>)
    ensures
        r is Ok <==> batch_matches(batch_view(patches@)),
        r matches Err(e) ==> exists|i: int, j: int|
            #![trigger batch_view(patches@)[i].replacements[j]]
            first_mismatch(batch_view(patches@), i, j)
                && e.addr == batch_view(patches@)[i].replacements[j].addr
                && e.title@ == batch_view(patches@)[i].title,
{
    let ghost ps = batch_view(patches@);
    let mut i: usize = 0;
    while i < patches.len()
        invariant
            i <= patches@.len(),
            ps == batch_view(patches@),
            batch_matches(ps.take(i as int)),
        decreases patches@.len() - i,
    {
        let patch = &patches[i];
        assert(ps[i as int] == patch@);
        let mut j: usize = 0;
        while j < patch.replacements.len()
            invariant
                i < patches@.len(),
                ps == batch_view(patches@),
                patch == patches@[i as int],
                ps[i as int] == patch@,
                batch_matches(ps.take(i as int)),
                j <= patch.replacements@.len(),
                forall|k: int| 0 <= k < j ==> !mismatched(#[trigger] ps[i as int].replacements[k]),
            decreases patch.replacements@.len() - j,
        {
            let rep = &patch.replacements[j];
            assert(ps[i as int].replacements[j as int] == rep@);
            if rep.before.len() != rep.after.len() {
                let e = LengthMismatch { addr: rep.addr, title: patch.title.clone() };
                proof {
                    assert(first_mismatch(ps, i as int, j as int));
                    assert(!patch_matches(ps[i as int]));
                    assert(!batch_matches(ps));
                }
                return Err(e);
            }
            j = j + 1;
        }
        proof {
            assert(patch_matches(ps[i as int]));
            assert forall|k: int| 0 <= k < i + 1 implies patch_matches(
                #[trigger] ps.take(i as int + 1)[k],
            ) by {
                if k < i {
                    assert(ps.take(i as int + 1)[k] == ps.take(i as int)[k]);
                }
            }
        }
        i = i + 1;
    }
    assert(ps.take(i as int) =~= ps);
    Ok(())
}

} // verus!
