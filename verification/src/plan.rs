use vstd::prelude::*;
use crate::errors::FmmdError;
use crate::filename::{derive_filename, derived_name, has_metadata, path_splits, spec_derive};
use crate::report::{error_line, error_line_spec, preview_line, preview_line_spec};
use crate::tag::{Tag, TagView};

verus! {

/// The options parsed from the command line: the files to rename, in
/// order, and the two mode flags.
pub struct CliOptions {
    pub files: Vec<String>,
    pub dry_run: bool,
    pub verbose: bool,
}

/// What a driver must do for one file whose tag was read: print the
/// preview line, if any, then rename the file to `target`, if any.
#[derive(Debug)]
pub struct RenamePlan {
    pub preview: Option<String>,
    pub target: Option<String>,
}

/// The mathematical content of a `RenamePlan`.
pub ghost struct PlanView {
    pub preview: Option<Seq<char>>,
    pub target: Option<Seq<char>>,
}

impl View for RenamePlan {
    type V = PlanView;

    open spec fn view(&self) -> PlanView {
        PlanView {
            preview: match self.preview {
                Some(s) => Some(s@),
                None => None,
            },
            target: match self.target {
                Some(s) => Some(s@),
                None => None,
            },
        }
    }
}

/// The tag read from a file, `None` when the metadata container could not
/// be parsed.
pub open spec fn opt_tag_view(tag: Option<&Tag>) -> Option<TagView> {
    match tag {
        Some(t) => Some(t@),
        None => None,
    }
}

/// What the per-file step decides on every input: a failed parse is
/// `FileParse`; a failed derivation keeps its error; otherwise the preview
/// line is present exactly under dry-run or verbose, and the rename target
/// exactly when not in dry-run.
pub open spec fn spec_rename_plan(
    tag: Option<TagView>,
    path: Seq<char>,
    dry_run: bool,
    verbose: bool,
) -> Result<PlanView, FmmdError> {
    match tag {
        None => Err(FmmdError::FileParse),
        Some(t) => match spec_derive(t.title, t.track, path) {
            Err(e) => Err(e),
            Ok(new_path) => Ok(
                PlanView {
                    preview: if dry_run || verbose {
                        Some(preview_line_spec(path, new_path))
                    } else {
                        None
                    },
                    target: if dry_run {
                        None
                    } else {
                        Some(new_path)
                    },
                },
            ),
        },
    }
}

/// Whether an executable plan result agrees with a specified one, value
/// for value.
pub open spec fn plan_agrees(r: Result<RenamePlan, FmmdError>, m: Result<PlanView, FmmdError>) -> bool {
    match (r, m) {
        (Ok(p), Ok(v)) => p@ == v,
        (Err(a), Err(b)) => a == b,
        _ => false,
    }
}

/// Decides one file whose existence is already settled: derive the new
/// name and say what to print and whether to rename, honouring the two
/// mode flags.
pub fn rename_plan(tag: Option<&Tag>, path: &str, dry_run: bool, verbose: bool) -> (r: Result<
    RenamePlan,
    FmmdError,
>)
    ensures
        plan_agrees(r, spec_rename_plan(opt_tag_view(tag), path@, dry_run, verbose)),
{
    let t = match tag {
        None => {
            return Err(FmmdError::FileParse);
        },
        Some(t) => t,
    };
    let new_path = match derive_filename(t, path) {
        Ok(s) => s,
        Err(e) => {
            return Err(e);
        },
    };
    let preview = if dry_run || verbose {
        Some(preview_line(path, new_path.as_str()))
    } else {
        None
    };
    let target = if dry_run {
        None
    } else {
        Some(new_path)
    };
    Ok(RenamePlan { preview, target })
}

/// Everything a driver must know after deciding one file: skip it with no
/// output at all, carry out a plan, or report an error line on standard
/// error.
pub enum FileOutcome {
    Skipped,
    Proceed(RenamePlan),
    Failed { error: FmmdError, report: String },
}

/// Decides one file of the run: a file that does not exist on disk is
/// skipped with no output; otherwise the per-file step runs and any error
/// becomes the colorized report line for standard error.
pub fn process_file(exists: bool, tag: Option<&Tag>, path: &str, opts: &CliOptions) -> (r:
    FileOutcome)
    ensures
        !exists ==> r is Skipped,
        exists ==> (match (r, spec_rename_plan(opt_tag_view(tag), path@, opts.dry_run, opts.verbose)) {
            (FileOutcome::Proceed(p), Ok(v)) => p@ == v,
            (FileOutcome::Failed { error, report }, Err(e)) => error == e && report@
                == error_line_spec(e, path@),
            _ => false,
        }),
{
    if !exists {
        return FileOutcome::Skipped;
    }
    match rename_plan(tag, path, opts.dry_run, opts.verbose) {
        Ok(p) => FileOutcome::Proceed(p),
        Err(e) => FileOutcome::Failed { error: e, report: error_line(&e, path) },
    }
}

/// Law: with both title and track absent, deriving a name fails with
/// `NotEnoughMetadata` — and with nothing else, whatever the path.
pub proof fn lemma_no_metadata_fails(title: Seq<char>, track: u32, path: Seq<char>)
    ensures
        (title.len() == 0 && track == 0) <==> spec_derive(title, track, path) == Err::<
            Seq<char>,
            FmmdError,
        >(FmmdError::NotEnoughMetadata),
{
}

/// Law: with a non-empty title or a non-zero track, and a path that splits
/// into a directory prefix and an extension, deriving a name succeeds and
/// returns exactly the derived name.
pub proof fn lemma_derive_success(title: Seq<char>, track: u32, path: Seq<char>)
    requires
        has_metadata(title, track),
        path_splits(path),
    ensures
        spec_derive(title, track, path) == Ok::<Seq<char>, FmmdError>(
            derived_name(title, track, path),
        ),
{
}

/// Law: in dry-run mode a successful plan never carries a rename target,
/// whatever the tag holds, so the filesystem is never mutated.
pub proof fn lemma_dry_run_never_renames(tag: Option<TagView>, path: Seq<char>, verbose: bool)
    ensures
        spec_rename_plan(tag, path, true, verbose) matches Ok(p) ==> p.target is None,
{
}

/// Law: with verbose set and dry-run unset, a successful plan carries both
/// the preview line and the rename target, and the line previews exactly
/// the rename that is performed.
pub proof fn lemma_verbose_previews_and_renames(tag: Option<TagView>, path: Seq<char>)
    ensures
        spec_rename_plan(tag, path, false, true) matches Ok(p) ==> (p.target matches Some(t)
            && p.preview == Some(preview_line_spec(path, t))),
{
}

} // verus!
