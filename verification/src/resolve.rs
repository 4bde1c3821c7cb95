//! Target resolution: from a parsed shortcut record and a display name to
//! an absolute target path, with a named exception and a fallback chain.
//!
//! Resolution is split in two stages around the filesystem.  The first
//! stage decides, from the record alone, whether the target is already
//! known, or which two join candidates should be offered to path
//! canonicalization, which only the caller can perform.  The second stage
//! turns the canonicalization outcomes into the final target.

use vstd::prelude::*;
use vstd::string::StringExecFns;
use crate::paths::{join_spec, parent_or_default_spec, join_path, parent_or_default};
use crate::shortcut::ShortcutRecord;

verus! {

/// The display name of the shortcut whose target is the virtual shell
/// folder: the binary format cannot carry it faithfully, so it resolves
/// to the fixed shell executable.
pub open spec fn shell_name() -> Seq<char> {
    "File Explorer"@
}

/// The fixed path that the shell shortcut resolves to.
pub open spec fn shell_target() -> Seq<char> {
    "C:\\Windows\\explorer.exe"@
}

pub open spec fn is_shell_name(name: Seq<char>) -> bool {
    name == shell_name()
}

/// The view of an optional string.
pub open spec fn opt_str_view(s: Option<String>) -> Option<Seq<char>> {
    match s {
        Some(x) => Some(x@),
        None => None,
    }
}

/// What the first resolution stage decides, at the level of the model:
/// the target is known outright, or two join candidates remain to be
/// canonicalized (the direct join first, the parent-of-working-directory
/// join second), or the record cannot be resolved at all.
pub ghost enum ResolutionStep {
    Resolved(Seq<char>),
    TryJoin(Seq<char>, Seq<char>),
    Failed,
}

/// The first stage as a function of the record's fields.  The named
/// exception comes first, then an embedded target, then the join
/// candidates built from the working directory (empty when absent) and
/// the relative path; a record with neither target nor relative path
/// fails.
pub open spec fn record_step(
    link_target: Option<Seq<char>>,
    working_dir: Option<Seq<char>>,
    relative_path: Option<Seq<char>>,
    display_name: Seq<char>,
) -> ResolutionStep {
    if is_shell_name(display_name) {
        ResolutionStep::Resolved(shell_target())
    } else if link_target is Some {
        ResolutionStep::Resolved(link_target->0)
    } else if relative_path is Some {
        let wd = if working_dir is Some {
            working_dir->0
        } else {
            Seq::<char>::empty()
        };
        ResolutionStep::TryJoin(
            join_spec(wd, relative_path->0),
            join_spec(parent_or_default_spec(wd), relative_path->0),
        )
    } else {
        ResolutionStep::Failed
    }
}

/// What the first resolution stage hands the caller.
#[derive(Debug)]
pub enum TargetResolution {
    /// The target is known without consulting the filesystem.
    Resolved(String),
    /// Two candidates, to be canonicalized in order.
    Candidates(String, String),
    /// Neither an embedded target nor a relative path: this shortcut
    /// cannot be resolved.
    Unresolvable,
}

pub open spec fn resolution_view(r: TargetResolution) -> ResolutionStep {
    match r {
        TargetResolution::Resolved(t) => ResolutionStep::Resolved(t@),
        TargetResolution::Candidates(a, b) => ResolutionStep::TryJoin(a@, b@),
        TargetResolution::Unresolvable => ResolutionStep::Failed,
    }
}

/// Decide the target, or the join candidates that remain to be
/// canonicalized, from the record and the display name.
pub fn resolve_target(record: &ShortcutRecord, display_name: &String) -> (r: TargetResolution)
    ensures
        resolution_view(r) == record_step(
            opt_str_view(record.link_target),
            opt_str_view(record.working_dir),
            opt_str_view(record.relative_path),
            display_name@,
        ),
{
    let shell = String::from_str("File Explorer");
    if *display_name == shell {
        return TargetResolution::Resolved(String::from_str("C:\\Windows\\explorer.exe"));
    }
    match &record.link_target {
        Some(t) => TargetResolution::Resolved(t.clone()),
        None => match &record.relative_path {
            Some(rp) => {
                let wd = match &record.working_dir {
                    Some(w) => w.clone(),
                    None => String::new(),
                };
                let direct = join_path(wd.as_str(), rp.as_str());
                let retry_base = parent_or_default(wd.as_str());
                let via_parent = join_path(retry_base.as_str(), rp.as_str());
                TargetResolution::Candidates(direct, via_parent)
            },
            None => TargetResolution::Unresolvable,
        },
    }
}

/// The second stage at the level of the model: a known target stands; of
/// two candidates the direct canonicalization wins, then the parent
/// retry, and when both fail the target degrades to the empty path
/// rather than dropping the shortcut; a failed record yields nothing.
pub open spec fn finish_step(
    step: ResolutionStep,
    canon_direct: Option<Seq<char>>,
    canon_parent: Option<Seq<char>>,
) -> Option<Seq<char>> {
    match step {
        ResolutionStep::Resolved(t) => Some(t),
        ResolutionStep::TryJoin(a, b) => match canon_direct {
            Some(c) => Some(c),
            None => match canon_parent {
                Some(c) => Some(c),
                None => Some(Seq::<char>::empty()),
            },
        },
        ResolutionStep::Failed => None,
    }
}

/// Turn the canonicalization outcomes of the two candidates into the
/// final target.  `canon_direct` and `canon_parent` are what
/// canonicalizing the first and the second candidate returned, when the
/// first stage asked for candidates; they are ignored otherwise.
pub fn finish_target(
    step: TargetResolution,
    canon_direct: Option<String>,
    canon_parent: Option<String>,
) -> (t: Option<String>)
    ensures
        opt_str_view(t) == finish_step(
            resolution_view(step),
            opt_str_view(canon_direct),
            opt_str_view(canon_parent),
        ),
{
    match step {
        TargetResolution::Resolved(p) => Some(p),
        TargetResolution::Candidates(_direct, _via_parent) => match canon_direct {
            Some(c) => Some(c),
            None => match canon_parent {
                Some(c) => Some(c),
                None => Some(String::new()),
            },
        },
        TargetResolution::Unresolvable => None,
    }
}

/// Law: a record whose display name is the fixed shell name resolves to
/// the fixed shell path, whatever else the record carries, an embedded
/// target included.
pub proof fn lemma_named_exception_precedence(
    link_target: Option<Seq<char>>,
    working_dir: Option<Seq<char>>,
    relative_path: Option<Seq<char>>,
    display_name: Seq<char>,
)
    requires
        is_shell_name(display_name),
    ensures
        record_step(link_target, working_dir, relative_path, display_name)
            == ResolutionStep::Resolved(shell_target()),
{
}

/// Law: when a record offers only a working directory and a relative
/// path, and the direct join does not canonicalize but the
/// parent-of-working-directory join does, resolution returns the parent
/// join's result, not an unresolved target.
pub proof fn lemma_parent_fallback(
    working_dir: Option<Seq<char>>,
    relative_path: Seq<char>,
    display_name: Seq<char>,
    canonical: Seq<char>,
)
    requires
        !is_shell_name(display_name),
    ensures
        finish_step(
            record_step(None, working_dir, Some(relative_path), display_name),
            None,
            Some(canonical),
        ) == Some(canonical),
{
}

} // verus!
