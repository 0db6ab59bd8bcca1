//! Mode selection, and conversion of a batch: it is rendered only once it validates.
use vstd::prelude::*;
use crate::model::{batch_view, Patch, PatchView};
use crate::render::{
    compiletime_lines, generate_bocfel_compiletime, generate_bocfel_runtime, lines_view,
    runtime_lines,
};
use crate::validate::{batch_matches, first_mismatch, validate, LengthMismatch};

verus! {

/// Which of the two renderers consumes the batch.
#[derive(Clone, Copy, Debug, PartialEq, Eq, Structural)]
pub enum Mode {
    BocfelRuntime,
    BocfelCompiletime,
}

/// The lines that the renderer of `mode` gives for a batch.
pub open spec fn rendered(mode: Mode, ps: Seq<PatchView>) -> Seq<Seq<char>> {
    match mode {
        Mode::BocfelRuntime => runtime_lines(ps),
        Mode::BocfelCompiletime => compiletime_lines(ps),
    }
}

/// Renders a batch with the renderer that `mode` selects.
pub fn render(mode: Mode, patches: &[Patch]) -> (lines: Vec<String>)
    ensures
        lines_view(lines@) == rendered(mode, batch_view(patches@)),
{
    match mode {
        Mode::BocfelRuntime => generate_bocfel_runtime(patches),
        Mode::BocfelCompiletime => generate_bocfel_compiletime(patches),
    }
}

/// Validates the batch and, only if every replacement matches in length,
/// renders it; otherwise reports the first mismatch and renders nothing.
pub fn convert(mode: Mode, patches: &[Patch]) -> (r: Result<Vec<String>, LengthMismatch>)
    ensures
        r is Ok <==> batch_matches(batch_view(patches@)),
        r matches Ok(lines) ==> lines_view(lines@) == rendered(mode, batch_view(patches@)),
        r matches Err(e) ==> exists|i: int, j: int|
            #![trigger batch_view(patches@)[i].replacements[j]]
            first_mismatch(batch_view(patches@), i, j)
                && e.addr == batch_view(patches@)[i].replacements[j].addr
                && e.title@ == batch_view(patches@)[i].title,
{
    match validate(patches) {
        Ok(()) => Ok(render(mode, patches)),
        Err(e) => Err(e),
    }
}

} // verus!
