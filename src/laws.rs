//! Properties of the renderers over all batches.
use vstd::prelude::*;
use crate::model::{identifier_of, PatchView, ReplacementView};
use crate::pipeline::{rendered, Mode};
use crate::render::{
    compiletime_header, compiletime_lines, compiletime_patch_lines, compiletime_replacement_lines,
    concat_lines, runtime_lines, runtime_patch_lines, runtime_replacement_line,
};

verus! {

/// The lines of two runs of blocks, one after the other, are the lines of
/// the first run followed by those of the second.
pub proof fn lemma_concat_lines_append(a: Seq<Seq<Seq<char>>>, b: Seq<Seq<Seq<char>>>)
    ensures
        concat_lines(a + b) == concat_lines(a) + concat_lines(b),
    decreases b.len(),
{
    if b.len() == 0 {
        assert(a + b =~= a);
        assert(concat_lines(a) + concat_lines(b) =~= concat_lines(a));
    } else {
        lemma_concat_lines_append(a, b.drop_last());
        assert((a + b).drop_last() =~= a + b.drop_last());
        assert((a + b).last() == b.last());
        assert(concat_lines(a + b) =~= concat_lines(a) + concat_lines(b));
    }
}

/// The output for a batch depends on the batch alone: rendering equal
/// batches, or one batch twice, gives identical lines.
pub proof fn lemma_render_deterministic(mode: Mode, a: Seq<PatchView>, b: Seq<PatchView>)
    requires
        a == b,
    ensures
        rendered(mode, a) == rendered(mode, b),
{
}

/// Rendering keeps the order of the batch: the output for two batches one
/// after the other is the output for the first followed by the output for
/// the second, in both formats.
pub proof fn lemma_render_append(mode: Mode, a: Seq<PatchView>, b: Seq<PatchView>)
    ensures
        rendered(mode, a + b) == rendered(mode, a) + rendered(mode, b),
{
    let fr = |p: PatchView| runtime_patch_lines(p);
    let fc = |p: PatchView| compiletime_patch_lines(p);
    assert((a + b).map_values(fr) =~= a.map_values(fr) + b.map_values(fr));
    assert((a + b).map_values(fc) =~= a.map_values(fc) + b.map_values(fc));
    lemma_concat_lines_append(a.map_values(fr), b.map_values(fr));
    lemma_concat_lines_append(a.map_values(fc), b.map_values(fc));
}

/// Each patch's block stands at its own position: replacing the patch at
/// position `k` changes only the block at that position, and nothing is
/// sorted or moved.
pub proof fn lemma_render_positional(mode: Mode, ps: Seq<PatchView>, k: int, p: PatchView)
    requires
        0 <= k < ps.len(),
    ensures
        rendered(mode, ps.update(k, p)) == rendered(mode, ps.take(k)) + rendered(mode, seq![p])
            + rendered(mode, ps.skip(k + 1)),
        rendered(mode, ps) == rendered(mode, ps.take(k)) + rendered(mode, seq![ps[k]])
            + rendered(mode, ps.skip(k + 1)),
{
    assert(ps.update(k, p) =~= ps.take(k) + seq![p] + ps.skip(k + 1));
    assert(ps =~= ps.take(k) + seq![ps[k]] + ps.skip(k + 1));
    lemma_render_append(mode, ps.take(k) + seq![p], ps.skip(k + 1));
    lemma_render_append(mode, ps.take(k), seq![p]);
    lemma_render_append(mode, ps.take(k) + seq![ps[k]], ps.skip(k + 1));
    lemma_render_append(mode, ps.take(k), seq![ps[k]]);
}

/// The output for a single patch is that patch's block.
pub proof fn lemma_render_single(p: PatchView)
    ensures
        runtime_lines(seq![p]) == runtime_patch_lines(p),
        compiletime_lines(seq![p]) == compiletime_patch_lines(p),
{
    let fr = |q: PatchView| runtime_patch_lines(q);
    let fc = |q: PatchView| compiletime_patch_lines(q);
    assert(seq![p].map_values(fr) =~= seq![runtime_patch_lines(p)]);
    assert(seq![p].map_values(fc) =~= seq![compiletime_patch_lines(p)]);
    lemma_concat_single(runtime_patch_lines(p));
    lemma_concat_single(compiletime_patch_lines(p));
}

/// Within a patch, replacement `j` gives the runtime line at position
/// `2 + j` and the compile-time lines at positions `3 + 5 * j` to `7 + 5 * j`.
pub proof fn lemma_replacement_positions(p: PatchView, j: int)
    requires
        0 <= j < p.replacements.len(),
    ensures
        runtime_patch_lines(p)[2 + j] == runtime_replacement_line(p.replacements[j]),
        compiletime_patch_lines(p).subrange(3 + 5 * j, 8 + 5 * j)
            == compiletime_replacement_lines(p.replacements[j]),
{
    let f = |r: ReplacementView| compiletime_replacement_lines(r);
    let blocks = p.replacements.map_values(f);
    assert(blocks =~= blocks.take(j) + seq![blocks[j]] + blocks.skip(j + 1));
    lemma_concat_lines_append(blocks.take(j) + seq![blocks[j]], blocks.skip(j + 1));
    lemma_concat_lines_append(blocks.take(j), seq![blocks[j]]);
    lemma_concat_single(blocks[j]);
    lemma_concat_len(blocks.take(j), j);
    assert(compiletime_patch_lines(p).subrange(3 + 5 * j, 8 + 5 * j) =~= blocks[j]);
}

proof fn lemma_concat_single(x: Seq<Seq<char>>)
    ensures
        concat_lines(seq![x]) == x,
{
    assert(seq![x].drop_last() =~= Seq::<Seq<Seq<char>>>::empty());
    assert(concat_lines(Seq::<Seq<Seq<char>>>::empty()) == Seq::<Seq<char>>::empty());
    assert(concat_lines(seq![x]) =~= x);
}

proof fn lemma_concat_len(blocks: Seq<Seq<Seq<char>>>, n: int)
    requires
        blocks.len() == n,
        forall|i: int| 0 <= i < blocks.len() ==> (#[trigger] blocks[i]).len() == 5,
    ensures
        concat_lines(blocks).len() == 5 * n,
    decreases n,
{
    if n > 0 {
        lemma_concat_len(blocks.drop_last(), n - 1);
    }
}

/// A patch without replacements still gets its header, its identifier and
/// an empty replacement block.
pub proof fn lemma_empty_patch(p: PatchView)
    requires
        p.replacements.len() == 0,
    ensures
        runtime_patch_lines(p) == seq![
            "# "@ + p.title,
            "["@ + identifier_of(p.release, p.serial, p.checksum) + "]"@,
            Seq::<char>::empty(),
        ],
        compiletime_patch_lines(p) == seq![
            "{"@,
            compiletime_header(p),
            "    {"@,
            "    },"@,
            "},"@,
        ],
{
    let f = |r: ReplacementView| compiletime_replacement_lines(r);
    assert(p.replacements.map_values(f) =~= Seq::<Seq<Seq<char>>>::empty());
    assert(runtime_patch_lines(p) =~= seq![
        "# "@ + p.title,
        "["@ + identifier_of(p.release, p.serial, p.checksum) + "]"@,
        Seq::<char>::empty(),
    ]);
    assert(compiletime_patch_lines(p) =~= seq!["{"@, compiletime_header(p), "    {"@, "    },"@, "},"@]);
}

} // verus!
