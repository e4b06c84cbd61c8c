//! Names of the two files that are derived from one SVG source.

use vstd::prelude::*;
use vstd::string::*;
use crate::error::AppError;
use crate::paths::{extension, file_stem, join, parent};
use crate::paths::{path_extension, path_file_name, path_file_stem, path_join, path_parent};
use crate::text::str_eq;

verus! {

/// Extension of a source file.
pub const EXT_SVG: &'static str = "svg";

/// Extension of the page file.
pub const PDF_EXT: &'static str = "pdf";

/// Extension of the text fragment that goes with the page file.
pub const PDF_TEX_EXT: &'static str = "pdf_tex";

/// The two files derived from one source: the page file and the text
/// fragment that includes it.
#[derive(Debug, Clone, PartialEq, Eq)]
pub struct AuxFiles {
    pub pdf: String,
    pub pdf_tex: String,
}

/// The paths of the two derived files, as text.
pub struct DerivedOutputs {
    pub pdf: Seq<char>,
    pub pdf_tex: Seq<char>,
}

impl View for AuxFiles {
    type V = DerivedOutputs;

    open spec fn view(&self) -> DerivedOutputs {
        DerivedOutputs { pdf: self.pdf@, pdf_tex: self.pdf_tex@ }
    }
}

/// The name of a derived file: the prefix, the source's stem, a dot and the
/// extension.
pub open spec fn aux_name(prefix: Seq<char>, stem: Seq<char>, ext: Seq<char>) -> Seq<char> {
    prefix + stem + seq!['.'] + ext
}

/// The derived files of the source at `svg_path`, or why there are none.
/// The stem is looked at before the parent directory.
pub open spec fn derived_outputs(svg_path: Seq<char>, prefix: Seq<char>) -> Result<
    DerivedOutputs,
    AppError,
> {
    match path_file_stem(svg_path) {
        None => Err(AppError::FailedToRetrieveFileStem),
        Some(stem) => match path_parent(svg_path) {
            None => Err(AppError::FailedToRetrieveParentDir),
            Some(dir) => Ok(
                DerivedOutputs {
                    pdf: path_join(dir, aux_name(prefix, stem, PDF_EXT@)),
                    pdf_tex: path_join(dir, aux_name(prefix, stem, PDF_TEX_EXT@)),
                },
            ),
        },
    }
}

/// Whether `path` names a source: its extension is `svg` and it is not a
/// directory.
pub open spec fn is_source(path: Seq<char>, is_dir: bool) -> bool {
    path_extension(path) == Some(EXT_SVG@) && !is_dir
}

/// Builds the name of a derived file from its three parts.
pub fn aux_file_name(prefix: &str, stem: &str, ext: &str) -> (name: String)
    ensures
        name@ == aux_name(prefix@, stem@, ext@),
{
    proof {
        reveal_strlit(".");
    }
    let name = String::from_str(prefix).concat(stem).concat(".").concat(ext);
    assert("."@ == seq!['.']);
    name
}

/// Whether `path` carries the extension of a source file.
pub fn has_svg_extension(path: &str) -> (yes: bool)
    ensures
        yes == (path_extension(path@) == Some(EXT_SVG@)),
{
    match extension(path) {
        Some(ext) => str_eq(ext.as_str(), EXT_SVG),
        None => false,
    }
}

/// Whether `path` is treated as a source file, given whether the
/// filesystem reports a directory there. Only the extension is looked at,
/// never the content.
pub fn is_svg_file(path: &str, is_dir: bool) -> (yes: bool)
    ensures
        yes == is_source(path@, is_dir),
{
    has_svg_extension(path) && !is_dir
}

impl AuxFiles {
    /// Puts the derived names together from the source's stem and parent
    /// directory, where it has them.
    pub fn from_parts(stem: Option<String>, dir: Option<String>, aux_prefix: &str) -> (r: Result<
        AuxFiles,
        AppError,
    >)
        ensures
            match r {
                Ok(aux) => stem matches Some(s) && dir matches Some(d) && aux.pdf@ == path_join(
                    d@,
                    aux_name(aux_prefix@, s@, PDF_EXT@),
                ) && aux.pdf_tex@ == path_join(d@, aux_name(aux_prefix@, s@, PDF_TEX_EXT@)),
                Err(e) => if stem is None {
                    e == AppError::FailedToRetrieveFileStem
                } else {
                    dir is None && e == AppError::FailedToRetrieveParentDir
                },
            },
    {
        let stem = match stem {
            Some(s) => s,
            None => {
                return Err(AppError::FailedToRetrieveFileStem);
            },
        };
        let dir = match dir {
            Some(d) => d,
            None => {
                return Err(AppError::FailedToRetrieveParentDir);
            },
        };
        let pdf_filename = aux_file_name(aux_prefix, stem.as_str(), PDF_EXT);
        let pdf_tex_filename = aux_file_name(aux_prefix, stem.as_str(), PDF_TEX_EXT);
        let pdf = join(dir.as_str(), pdf_filename.as_str());
        let pdf_tex = join(dir.as_str(), pdf_tex_filename.as_str());
        Ok(AuxFiles { pdf, pdf_tex })
    }

    /// Derives the page file and the text fragment of the source at
    /// `svg_path`: both lie in the source's directory and are named by the
    /// prefix followed by the source's stem. A path without a file name
    /// fails on its stem, whatever its parent is.
    pub fn from_svg(svg_path: &str, aux_prefix: &str) -> (r: Result<AuxFiles, AppError>)
        ensures
            match r {
                Ok(aux) => derived_outputs(svg_path@, aux_prefix@) == Ok::<
                    DerivedOutputs,
                    AppError,
                >(aux@),
                Err(e) => derived_outputs(svg_path@, aux_prefix@) == Err::<
                    DerivedOutputs,
                    AppError,
                >(e),
            },
            path_file_name(svg_path@) is None ==> r == Err::<AuxFiles, AppError>(
                AppError::FailedToRetrieveFileStem,
            ),
    {
        let stem = file_stem(svg_path);
        let dir = parent(svg_path);
        AuxFiles::from_parts(stem, dir, aux_prefix)
    }
}

/// A source with a stem and a parent directory has its two outputs in that
/// directory, named by the prefix followed by the stem, with the page
/// extension and the fragment extension.
pub proof fn lemma_outputs_of_stem_and_parent(
    svg_path: Seq<char>,
    prefix: Seq<char>,
    stem: Seq<char>,
    dir: Seq<char>,
)
    requires
        path_file_stem(svg_path) == Some(stem),
        path_parent(svg_path) == Some(dir),
    ensures
        derived_outputs(svg_path, prefix) == Ok::<DerivedOutputs, AppError>(
            DerivedOutputs {
                pdf: path_join(dir, prefix + stem + ".pdf"@),
                pdf_tex: path_join(dir, prefix + stem + ".pdf_tex"@),
            },
        ),
{
    reveal_strlit(".pdf");
    reveal_strlit(".pdf_tex");
    reveal_strlit("pdf");
    reveal_strlit("pdf_tex");
    assert(aux_name(prefix, stem, PDF_EXT@) =~= prefix + stem + ".pdf"@);
    assert(aux_name(prefix, stem, PDF_TEX_EXT@) =~= prefix + stem + ".pdf_tex"@);
}

/// A source without a stem fails on the stem, never on the parent.
pub proof fn lemma_no_stem_is_stem_failure(svg_path: Seq<char>, prefix: Seq<char>)
    requires
        path_file_stem(svg_path) is None,
    ensures
        derived_outputs(svg_path, prefix) == Err::<DerivedOutputs, AppError>(
            AppError::FailedToRetrieveFileStem,
        ),
{
}

} // verus!
