use vstd::prelude::*;

verus! {

use vstd::utf8::is_ascii_chars;
use crate::casing::ascii_lower;
use crate::casing::ascii_upper;
use crate::casing::lower_of;
use crate::casing::upper_of;
use crate::casing::to_lowercase_str;
use crate::casing::to_uppercase_str;
use crate::casing::lemma_ascii_lower_idempotent;
use crate::casing::lemma_ascii_upper_idempotent;
use crate::casing::lemma_ascii_fold_keeps_char;
use crate::paths::spec_extension;
use crate::paths::spec_with_extension;
use crate::paths::extension_or_empty;
use crate::paths::extension_of;
use crate::paths::with_extension;
use crate::paths::lemma_extension_chars;
use crate::paths::lemma_extension_after_replace;

/// The case that extensions are converted to.
#[derive(Clone, Copy, Debug)]
pub enum TargetCase {
    Upper,
    Lower,
}

/// What the requested case fold returns for a character sequence
/// (`str::to_uppercase` or `str::to_lowercase`).
pub open spec fn spec_fold(case: TargetCase, s: Seq<char>) -> Seq<char> {
    match case {
        TargetCase::Upper => upper_of(s),
        TargetCase::Lower => lower_of(s),
    }
}

/// The requested case fold restricted to its ASCII behaviour.
pub open spec fn ascii_fold(case: TargetCase, s: Seq<char>) -> Seq<char> {
    match case {
        TargetCase::Upper => ascii_upper(s),
        TargetCase::Lower => ascii_lower(s),
    }
}

/// The decision taken for one candidate file, before any filesystem work.
#[derive(Debug)]
pub enum RenamePlan {
    /// The path has no extension: the file is to be reported as failed and
    /// left untouched.
    NoExtension,
    /// The extension already has the requested case: nothing is to be done.
    NoChange,
    /// The file is to be renamed to the held path.
    Rename { new_path: String },
}

/// What happened to one candidate file.
#[derive(Debug)]
pub enum RenameOutcome {
    /// The file was renamed from `old_path` to `new_path`.
    Renamed { old_path: String, new_path: String },
    /// The file was left as it is, with the reason.
    Unchanged { path: String, reason: String },
    /// The file could not be processed; `error` says why.
    Failed { path: String, error: String },
}

/// Decides what converting `path` to the requested case does: fail for a
/// path without an extension, do nothing when the fold leaves the extension
/// as it is, and otherwise rename to the path with the folded extension.
pub fn convert_plan(path: &str, case: TargetCase) -> (r: RenamePlan)
    ensures
        r is NoExtension <==> spec_extension(path@) is None,
        match spec_extension(path@) {
            None => r is NoExtension,
            Some(e) => {
                &&& spec_fold(case, e) == e ==> r is NoChange
                &&& spec_fold(case, e) != e ==> (r matches RenamePlan::Rename { new_path }
                    && new_path@ == spec_with_extension(path@, spec_fold(case, e)))
                &&& is_ascii_chars(e) ==> spec_fold(case, e) == ascii_fold(case, e)
            },
        },
{
    match extension_of(path) {
        None => RenamePlan::NoExtension,
        Some(ext) => {
            let folded: String = match case {
                TargetCase::Upper => to_uppercase_str(ext.as_str()),
                TargetCase::Lower => to_lowercase_str(ext.as_str()),
            };
            if folded == ext {
                RenamePlan::NoChange
            } else {
                let new_path = with_extension(path, folded.as_str());
                RenamePlan::Rename { new_path }
            }
        },
    }
}

/// Settles the report entry for one candidate file, given its plan and, when
/// a rename was performed, the error the filesystem reported, if any.
pub fn convert_outcome(path: &str, plan: RenamePlan, rename_error: Option<String>) -> (r:
    RenameOutcome)
    ensures
        match plan {
            RenamePlan::NoExtension => r matches RenameOutcome::Failed { path: p, error }
                && p@ == path@ && error@ == "no extension"@,
            RenamePlan::NoChange => r matches RenameOutcome::Unchanged { path: p, reason }
                && p@ == path@ && reason@ == "no change needed"@,
            RenamePlan::Rename { new_path } => match rename_error {
                Some(e) => r matches RenameOutcome::Failed { path: p, error } && p@ == path@
                    && error@ == e@,
                None => r matches RenameOutcome::Renamed { old_path, new_path: np }
                    && old_path@ == path@ && np@ == new_path@,
            },
        },
{
    match plan {
        RenamePlan::NoExtension => RenameOutcome::Failed {
            path: path.to_owned(),
            error: no_extension_message(),
        },
        RenamePlan::NoChange => RenameOutcome::Unchanged {
            path: path.to_owned(),
            reason: no_change_message(),
        },
        RenamePlan::Rename { new_path } => match rename_error {
            Some(e) => RenameOutcome::Failed { path: path.to_owned(), error: e },
            None => RenameOutcome::Renamed { old_path: path.to_owned(), new_path },
        },
    }
}

/// The error text for a file without an extension.
pub fn no_extension_message() -> (r: String)
    ensures
        r@ == "no extension"@,
{
    "no extension".to_owned()
}

/// The reason text for a file whose extension already has the target case.
pub fn no_change_message() -> (r: String)
    ensures
        r@ == "no change needed"@,
{
    "no change needed".to_owned()
}

/// A planned rename replaces the extension and nothing else: the new path's
/// extension is exactly the folded old extension, and the rest of the final
/// component is kept.
pub proof fn lemma_renamed_extension(p: Seq<char>, case: TargetCase)
    requires
        spec_extension(p) is Some,
    ensures
        ({
            let f = ascii_fold(case, extension_or_empty(p));
            spec_extension(spec_with_extension(p, f)) == Some(f)
        }),
{
    let e = extension_or_empty(p);
    let f = ascii_fold(case, e);
    lemma_extension_chars(p);
    lemma_ascii_fold_keeps_char(e, '.');
    lemma_ascii_fold_keeps_char(e, '/');
    lemma_extension_after_replace(p, f);
}

/// Idempotence of conversion: after one pass, the file's extension is the
/// folded one, and folding it again changes nothing, so a second pass with
/// the same target case is a no-op.
pub proof fn lemma_convert_idempotent(p: Seq<char>, case: TargetCase)
    requires
        spec_extension(p) is Some,
    ensures
        ({
            let e = extension_or_empty(p);
            let f = ascii_fold(case, e);
            let after = if f == e {
                p
            } else {
                spec_with_extension(p, f)
            };
            &&& spec_extension(after) == Some(f)
            &&& ascii_fold(case, f) == f
        }),
{
    let e = extension_or_empty(p);
    lemma_renamed_extension(p, case);
    match case {
        TargetCase::Upper => lemma_ascii_upper_idempotent(e),
        TargetCase::Lower => lemma_ascii_lower_idempotent(e),
    }
}

} // verus!
