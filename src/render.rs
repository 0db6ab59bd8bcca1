//! The two renderers of a batch: a readable runtime listing and a literal
//! table for inclusion in source code. Both produce output lines in order.
use vstd::prelude::*;
use crate::model::{batch_view, identifier_of, Patch, PatchView, Replacement, ReplacementView};
use crate::text::{
    compiletime_bytes, dec_of, format_bytes_compiletime, format_bytes_runtime, hex_of, push_dec,
    push_hex, runtime_bytes,
};

verus! {

/// The contents of a sequence of lines.
pub open spec fn lines_view(lines: Seq<String>) -> Seq<Seq<char>> {
    lines.map_values(|s: String| s@)
}

/// The blocks of lines one after the other.
pub open spec fn concat_lines(blocks: Seq<Seq<Seq<char>>>) -> Seq<Seq<char>>
    decreases blocks.len(),
{
    if blocks.len() == 0 {
        Seq::empty()
    } else {
        concat_lines(blocks.drop_last()) + blocks.last()
    }
}

/// `0x{addr} {count} [{before}] [{after}]`.
pub open spec fn runtime_replacement_line(r: ReplacementView) -> Seq<char> {
    "0x"@ + hex_of(r.addr as nat) + " "@ + dec_of(r.before.len()) + " ["@ + runtime_bytes(r.before)
        + "] ["@ + runtime_bytes(r.after) + "]"@
}

/// A patch's header, its identifier line, one line per replacement, and a
/// blank line.
pub open spec fn runtime_patch_lines(p: PatchView) -> Seq<Seq<char>> {
    seq!["# "@ + p.title, "["@ + identifier_of(p.release, p.serial, p.checksum) + "]"@]
        + p.replacements.map_values(|r: ReplacementView| runtime_replacement_line(r))
        + seq![Seq::<char>::empty()]
}

/// The runtime listing of a batch.
pub open spec fn runtime_lines(ps: Seq<PatchView>) -> Seq<Seq<char>> {
    concat_lines(ps.map_values(|p: PatchView| runtime_patch_lines(p)))
}

/// The five lines of one replacement in the compile-time table.
pub open spec fn compiletime_replacement_lines(r: ReplacementView) -> Seq<Seq<char>> {
    seq![
        "        {"@,
        "            0x"@ + hex_of(r.addr as nat) + ", "@ + dec_of(r.before.len()) + ","@,
        "            {"@ + compiletime_bytes(r.before) + "},"@,
        "            {"@ + compiletime_bytes(r.after) + "},"@,
        "        },"@,
    ]
}

/// The header line of a patch in the compile-time table.
pub open spec fn compiletime_header(p: PatchView) -> Seq<char> {
    "    \""@ + p.title + "\", \""@ + p.serial + "\", "@ + dec_of(p.release as nat) + ", 0x"@
        + hex_of(p.checksum as nat) + ","@
}

/// The block of one patch in the compile-time table.
pub open spec fn compiletime_patch_lines(p: PatchView) -> Seq<Seq<char>> {
    seq!["{"@, compiletime_header(p), "    {"@] + concat_lines(
        p.replacements.map_values(|r: ReplacementView| compiletime_replacement_lines(r)),
    ) + seq!["    },"@, "},"@]
}

/// The compile-time table of a batch.
pub open spec fn compiletime_lines(ps: Seq<PatchView>) -> Seq<Seq<char>> {
    concat_lines(ps.map_values(|p: PatchView| compiletime_patch_lines(p)))
}

/// Appends one line.
fn push_line(lines: &mut Vec<String>, line: String)
    ensures
        lines_view(final(lines)@) == lines_view(old(lines)@).push(line@),
{
    lines.push(line);
    assert(lines_view(lines@) =~= lines_view(old(lines)@).push(line@));
}

/// A new string holding `s`.
fn line_of(s: &str) -> (r: String)
    ensures
        r@ == s@,
{
    String::from_str(s)
}

proof fn lemma_concat_step(blocks: Seq<Seq<Seq<char>>>, i: int)
    requires
        0 <= i < blocks.len(),
    ensures
        concat_lines(blocks.take(i + 1)) == concat_lines(blocks.take(i)) + blocks[i],
{
    assert(blocks.take(i + 1).drop_last() =~= blocks.take(i));
}

fn runtime_replacement(rep: &Replacement) -> (r: String)
    ensures
        r@ == runtime_replacement_line(rep@),
{
    let mut s = String::from_str("0x");
    push_hex(&mut s, rep.addr);
    s.append(" ");
    push_dec(&mut s, rep.before.len() as u64);
    s.append(" [");
    let before = format_bytes_runtime(rep.before.as_slice());
    s.append(before.as_str());
    s.append("] [");
    let after = format_bytes_runtime(rep.after.as_slice());
    s.append(after.as_str());
    s.append("]");
    s
}

fn runtime_patch(patch: &Patch, lines: &mut Vec<String>)
    ensures
        lines_view(final(lines)@) == lines_view(old(lines)@) + runtime_patch_lines(patch@),
{
    let ghost start = lines_view(lines@);
    let mut title = String::from_str("# ");
    title.append(patch.title.as_str());
    push_line(lines, title);
    let mut id = String::from_str("[");
    let ident = patch.identifier();
    id.append(ident.as_str());
    id.append("]");
    push_line(lines, id);
    let ghost head = lines_view(lines@);
    let ghost reps = patch@.replacements;
    let mut j: usize = 0;
    while j < patch.replacements.len()
        invariant
            j <= reps.len(),
            reps == patch@.replacements,
            lines_view(lines@) == head + reps.take(j as int).map_values(
                |r: ReplacementView| runtime_replacement_line(r),
            ),
        decreases reps.len() - j,
    {
        let line = runtime_replacement(&patch.replacements[j]);
        push_line(lines, line);
        assert(reps.take(j as int + 1).map_values(|r: ReplacementView| runtime_replacement_line(r))
            =~= reps.take(j as int).map_values(|r: ReplacementView| runtime_replacement_line(r)).push(
            runtime_replacement_line(reps[j as int]),
        ));
        j = j + 1;
    }
    push_line(lines, String::new());
    assert(reps.take(j as int) =~= reps);
    assert(lines_view(lines@) =~= start + runtime_patch_lines(patch@));
}

/// The runtime listing: for each patch its header, identifier, one line per
/// replacement and a blank line.
pub fn generate_bocfel_runtime(patches: &[Patch]) -> (lines: Vec<String>)
    ensures
        lines_view(lines@) == runtime_lines(batch_view(patches@)),
{
    let ghost ps = batch_view(patches@);
    let ghost blocks = ps.map_values(|p: PatchView| runtime_patch_lines(p));
    let mut lines: Vec<String> = Vec::new();
    let mut i: usize = 0;
    while i < patches.len()
        invariant
            i <= patches@.len(),
            ps == batch_view(patches@),
            blocks == ps.map_values(|p: PatchView| runtime_patch_lines(p)),
            lines_view(lines@) == concat_lines(blocks.take(i as int)),
        decreases patches@.len() - i,
    {
        runtime_patch(&patches[i], &mut lines);
        proof {
            lemma_concat_step(blocks, i as int);
        }
        i = i + 1;
    }
    assert(blocks.take(i as int) =~= blocks);
    lines
}

fn compiletime_replacement(rep: &Replacement, lines: &mut Vec<String>)
    ensures
        lines_view(final(lines)@) == lines_view(old(lines)@) + compiletime_replacement_lines(rep@),
{
    let ghost start = lines_view(lines@);
    push_line(lines, line_of("        {"));
    let mut s = String::from_str("            0x");
    push_hex(&mut s, rep.addr);
    s.append(", ");
    push_dec(&mut s, rep.before.len() as u64);
    s.append(",");
    push_line(lines, s);
    let mut b = String::from_str("            {");
    let before = format_bytes_compiletime(rep.before.as_slice());
    b.append(before.as_str());
    b.append("},");
    push_line(lines, b);
    let mut a = String::from_str("            {");
    let after = format_bytes_compiletime(rep.after.as_slice());
    a.append(after.as_str());
    a.append("},");
    push_line(lines, a);
    push_line(lines, line_of("        },"));
    assert(lines_view(lines@) =~= start + compiletime_replacement_lines(rep@));
}

fn compiletime_patch(patch: &Patch, lines: &mut Vec<String>)
    ensures
        lines_view(final(lines)@) == lines_view(old(lines)@) + compiletime_patch_lines(patch@),
{
    let ghost start = lines_view(lines@);
    push_line(lines, line_of("{"));
    let mut h = String::from_str("    \"");
    h.append(patch.title.as_str());
    h.append("\", \"");
    h.append(patch.serial.as_str());
    h.append("\", ");
    push_dec(&mut h, patch.release as u64);
    h.append(", 0x");
    push_hex(&mut h, patch.checksum as u32);
    h.append(",");
    push_line(lines, h);
    push_line(lines, line_of("    {"));
    let ghost head = lines_view(lines@);
    let ghost reps = patch@.replacements;
    let ghost blocks = reps.map_values(|r: ReplacementView| compiletime_replacement_lines(r));
    let mut j: usize = 0;
    while j < patch.replacements.len()
        invariant
            j <= reps.len(),
            reps == patch@.replacements,
            blocks == reps.map_values(|r: ReplacementView| compiletime_replacement_lines(r)),
            lines_view(lines@) == head + concat_lines(blocks.take(j as int)),
        decreases reps.len() - j,
    {
        compiletime_replacement(&patch.replacements[j], lines);
        proof {
            lemma_concat_step(blocks, j as int);
        }
        j = j + 1;
    }
    assert(blocks.take(j as int) =~= blocks);
    push_line(lines, line_of("    },"));
    push_line(lines, line_of("},"));
    assert(lines_view(lines@) =~= start + compiletime_patch_lines(patch@));
}

/// The compile-time table: one literal block per patch, holding one block
/// per replacement.
pub fn generate_bocfel_compiletime(patches: &[Patch]) -> (lines: Vec<String>)
    ensures
        lines_view(lines@) == compiletime_lines(batch_view(patches@)),
{
    let ghost ps = batch_view(patches@);
    let ghost blocks = ps.map_values(|p: PatchView| compiletime_patch_lines(p));
    let mut lines: Vec<String> = Vec::new();
    let mut i: usize = 0;
    while i < patches.len()
        invariant
            i <= patches@.len(),
            ps == batch_view(patches@),
            blocks == ps.map_values(|p: PatchView| compiletime_patch_lines(p)),
            lines_view(lines@) == concat_lines(blocks.take(i as int)),
        decreases patches@.len() - i,
    {
        compiletime_patch(&patches[i], &mut lines);
        proof {
            lemma_concat_step(blocks, i as int);
        }
        i = i + 1;
    }
    assert(blocks.take(i as int) =~= blocks);
    lines
}

} // verus!
