//! Carrying out what a notification asks for: the command that renders a
//! source, what the renderer's exit means, and which derived files are to
//! be deleted or moved.

use vstd::prelude::*;
use vstd::string::*;
use crate::args::Config;
use crate::aux_files::{derived_outputs, AuxFiles, DerivedOutputs};
use crate::error::AppError;
use crate::text::texts;

verus! {

/// Flag that goes before the path of the page file.
pub const INKSCAPE_EXPORT_ARG: &'static str = "--export-filename";

/// Flag that goes before the path of the source and asks for the text
/// fragment beside the page file.
pub const INKSCAPE_EXPORT_LATEX_ARG: &'static str = "--export-latex";

/// One run of the renderer.
#[derive(Debug, Clone, PartialEq, Eq)]
pub struct RenderCommand {
    pub program: String,
    pub args: Vec<String>,
}

/// The arguments with which the renderer turns the source at `svg_path`
/// into the page file at `pdf`.
pub open spec fn render_args(pdf: Seq<char>, svg_path: Seq<char>) -> Seq<Seq<char>> {
    seq![INKSCAPE_EXPORT_ARG@, pdf, INKSCAPE_EXPORT_LATEX_ARG@, svg_path]
}

/// The command that renders the source at `svg_path`: the configured
/// renderer, told to export to the derived page file and to write the text
/// fragment with it. A source without derived names gets no command.
pub fn render_command(svg_path: &str, config: &Config) -> (r: Result<RenderCommand, AppError>)
    ensures
        match r {
            Ok(cmd) => derived_outputs(svg_path@, config.aux_prefix@) matches Ok(out)
                && cmd.program@ == config.inkscape_path@ && texts(cmd.args@) == render_args(
                out.pdf,
                svg_path@,
            ),
            Err(e) => derived_outputs(svg_path@, config.aux_prefix@) == Err::<
                DerivedOutputs,
                AppError,
            >(e),
        },
{
    let aux = match AuxFiles::from_svg(svg_path, config.aux_prefix.as_str()) {
        Ok(aux) => aux,
        Err(e) => {
            return Err(e);
        },
    };
    let mut args: Vec<String> = Vec::new();
    args.push(String::from_str(INKSCAPE_EXPORT_ARG));
    args.push(aux.pdf);
    args.push(String::from_str(INKSCAPE_EXPORT_LATEX_ARG));
    args.push(String::from_str(svg_path));
    assert(texts(args@) =~= render_args(aux.pdf@, svg_path@));
    Ok(RenderCommand { program: config.inkscape_path.clone(), args })
}

/// What one run of the renderer came to: success where it exited with
/// status zero, and otherwise a failure that carries everything the
/// renderer wrote to its standard error. A failed run never counts as a
/// conversion.
pub fn render_verdict(success: bool, stderr: Vec<u8>) -> (r: Result<bool, AppError>)
    ensures
        success ==> r == Ok::<bool, AppError>(true),
        !success ==> r == Err::<bool, AppError>(AppError::InkscapeError(stderr)),
{
    if success {
        Ok(true)
    } else {
        Err(AppError::InkscapeError(stderr))
    }
}

/// Which derived files are to be deleted, and which were not there.
#[derive(Debug, Clone, PartialEq, Eq)]
pub struct RemovalPlan {
    /// Files to delete, in this order.
    pub delete: Vec<String>,
    /// Files that were absent; they are worth a note and are no failure.
    pub missing: Vec<String>,
}

/// The one path where `wanted`, nothing otherwise.
pub open spec fn only_if(wanted: bool, path: Seq<char>) -> Seq<Seq<char>> {
    if wanted {
        seq![path]
    } else {
        Seq::empty()
    }
}

/// The derived files that are deleted: those that exist, the page file
/// before the text fragment.
pub open spec fn to_delete(out: DerivedOutputs, pdf_exists: bool, pdf_tex_exists: bool) -> Seq<
    Seq<char>,
> {
    only_if(pdf_exists, out.pdf) + only_if(pdf_tex_exists, out.pdf_tex)
}

/// The derived files that are noted as absent.
pub open spec fn to_note(out: DerivedOutputs, pdf_exists: bool, pdf_tex_exists: bool) -> Seq<
    Seq<char>,
> {
    only_if(!pdf_exists, out.pdf) + only_if(!pdf_tex_exists, out.pdf_tex)
}

/// Plans the cleanup after a source is gone: each derived file is deleted
/// only where it exists, and one that is absent is noted.
pub fn remove_generated_files(aux: AuxFiles, pdf_exists: bool, pdf_tex_exists: bool) -> (plan:
    RemovalPlan)
    ensures
        texts(plan.delete@) == to_delete(aux@, pdf_exists, pdf_tex_exists),
        texts(plan.missing@) == to_note(aux@, pdf_exists, pdf_tex_exists),
        !pdf_exists && !pdf_tex_exists ==> plan.delete@.len() == 0,
{
    let mut delete: Vec<String> = Vec::new();
    let mut missing: Vec<String> = Vec::new();
    let AuxFiles { pdf, pdf_tex } = aux;
    if pdf_exists {
        delete.push(pdf);
    } else {
        missing.push(pdf);
    }
    if pdf_tex_exists {
        delete.push(pdf_tex);
    } else {
        missing.push(pdf_tex);
    }
    assert(texts(delete@) =~= to_delete(aux@, pdf_exists, pdf_tex_exists));
    assert(texts(missing@) =~= to_note(aux@, pdf_exists, pdf_tex_exists));
    RemovalPlan { delete, missing }
}

/// One file to move.
#[derive(Debug, Clone, PartialEq, Eq)]
pub struct Move {
    pub from: String,
    pub to: String,
}

/// Plans the move of the outputs after a source was renamed: the page file
/// and the text fragment of the old name go to the names that the new name
/// derives, in this order. Nothing is planned where either name derives no
/// outputs; the old name is looked at first.
pub fn rename_generated_files(from: &str, to: &str, aux_prefix: &str) -> (r: Result<
    Vec<Move>,
    AppError,
>)
    ensures
        match r {
            Ok(moves) => derived_outputs(from@, aux_prefix@) matches Ok(old_out)
                && derived_outputs(to@, aux_prefix@) matches Ok(new_out) && moves@.len() == 2
                && moves@[0].from@ == old_out.pdf && moves@[0].to@ == new_out.pdf
                && moves@[1].from@ == old_out.pdf_tex && moves@[1].to@ == new_out.pdf_tex,
            Err(e) => match derived_outputs(from@, aux_prefix@) {
                Err(old_fault) => e == old_fault,
                Ok(_) => derived_outputs(to@, aux_prefix@) == Err::<DerivedOutputs, AppError>(e),
            },
        },
{
    let old_aux = match AuxFiles::from_svg(from, aux_prefix) {
        Ok(aux) => aux,
        Err(e) => {
            return Err(e);
        },
    };
    let new_aux = match AuxFiles::from_svg(to, aux_prefix) {
        Ok(aux) => aux,
        Err(e) => {
            return Err(e);
        },
    };
    let mut moves: Vec<Move> = Vec::new();
    moves.push(Move { from: old_aux.pdf, to: new_aux.pdf });
    moves.push(Move { from: old_aux.pdf_tex, to: new_aux.pdf_tex });
    Ok(moves)
}

/// Where neither derived file exists, nothing is deleted, so the cleanup
/// has nothing that could fail, however often it is repeated.
pub proof fn lemma_nothing_to_delete(out: DerivedOutputs)
    ensures
        to_delete(out, false, false) == Seq::<Seq<char>>::empty(),
        to_note(out, false, false) == seq![out.pdf, out.pdf_tex],
{
    assert(to_delete(out, false, false) =~= Seq::<Seq<char>>::empty());
    assert(to_note(out, false, false) =~= seq![out.pdf, out.pdf_tex]);
}

} // verus!
