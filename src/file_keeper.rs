//! Validation of a source path and an optional target path. The filesystem
//! is consulted by the caller; each function here decides from what the
//! caller observed.
use vstd::prelude::*;

verus! {

/// The owner-read bit of a POSIX permission mode.
pub const OWNER_READ: u32 = 0o400;

/// A permission mode grants reading when its owner-read bit is set.
pub open spec fn mode_grants_read(mode: u32) -> bool {
    mode & OWNER_READ != 0
}

/// A path is readable when its metadata could be read (`Some(mode)`) and the
/// mode grants reading. A missing path has no metadata.
pub open spec fn readable(mode: Option<u32>) -> bool {
    match mode {
        Some(m) => mode_grants_read(m),
        None => false,
    }
}

/// Decides readability from the permission mode found in a path's metadata,
/// or `None` where the metadata could not be read.
pub fn is_readable(mode: Option<u32>) -> (r: bool)
    ensures
        r == readable(mode),
        mode is None ==> !r,
        (mode matches Some(m) && m & OWNER_READ == 0) ==> !r,
        (mode matches Some(m) && m & OWNER_READ != 0) ==> r,
{
    match mode {
        Some(m) => m & OWNER_READ != 0,
        None => false,
    }
}

/// Why a source / target pair was refused.
#[derive(Debug)]
pub enum ValidationError {
    /// The source is missing or lacks read permission.
    SourceUnreadable,
    /// The target directory could not be created; `cause` is the filesystem's
    /// own message.
    DirectoryCreationFailed { path: String, cause: String },
    /// The resolved target cannot be read.
    TargetUnreadable,
    /// The resolved target is, letter for letter, the source.
    SameSourceAndTarget,
}

/// What has to happen to the resolved target before validation can finish.
#[derive(Debug, Clone, Copy, PartialEq, Eq)]
pub enum Provision {
    /// Nothing: the target exists, or names a prospective file.
    Keep,
    /// Create the target directory with all its missing ancestors.
    CreateDirectory,
    /// Dry run: report the directory that would be created, touch nothing.
    AnnounceDirectory,
}

/// The target chosen for a readable source, and what it still needs.
#[derive(Debug)]
pub struct TargetPlan {
    pub resolved: String,
    pub provision: Provision,
}

/// Whether `std::path::Path::extension` finds an extension in the path.
pub uninterp spec fn has_extension(path: Seq<char>) -> bool;

/// Relies on `std::path::Path::extension`: whether the final component of
/// the path carries an extension. A file name without an embedded '.' has
/// none, so neither has a path with no '.' at all.
#[verifier::external_body]
fn path_has_extension(path: &str) -> (r: bool)
    ensures
        r == has_extension(path@),
        !path@.contains('.') ==> !r,
{
    std::path::Path::new(path).extension().is_some()
}

/// The text of an optional path.
pub open spec fn view_of(target: Option<String>) -> Option<Seq<char>> {
    match target {
        Some(t) => Some(t@),
        None => None,
    }
}

/// The current directory, `.`.
pub open spec fn current_dir() -> Seq<char> {
    seq!['.']
}

/// An absent target stands for the current directory; a given one for itself.
pub open spec fn resolved_target(target: Option<Seq<char>>) -> Seq<char> {
    match target {
        Some(t) => t,
        None => current_dir(),
    }
}

/// A given target that does not exist and has no extension is taken for a
/// directory: created in a normal run, announced in a dry run.
pub open spec fn provision_for(target: Option<Seq<char>>, exists: bool, dry: bool) -> Provision {
    match target {
        Some(t) => if !exists && !has_extension(t) {
            if dry {
                Provision::AnnounceDirectory
            } else {
                Provision::CreateDirectory
            }
        } else {
            Provision::Keep
        },
        None => Provision::Keep,
    }
}

/// First half of validation. `source_readable` is the readability of the
/// source, `target_exists` whether the given target exists on disk (unused
/// where no target is given). An unreadable source is refused whatever the
/// target and the mode.
pub fn plan_target(target: &Option<String>, dry: bool, source_readable: bool, target_exists: bool)
    -> (r: Result<TargetPlan, ValidationError>)
    ensures
        !source_readable ==> r matches Err(ValidationError::SourceUnreadable),
        source_readable ==> (r matches Ok(p) && p.resolved@ == resolved_target(view_of(*target))
            && p.provision == provision_for(view_of(*target), target_exists, dry)),
        source_readable && !target_exists ==> (*target matches Some(t) ==> (!t@.contains('.')
            ==> !has_extension(t@))),
{
    if !source_readable {
        return Err(ValidationError::SourceUnreadable);
    }
    match target {
        None => {
            let here = String::from_str(".");
            proof {
                reveal_strlit(".");
                assert(here@ =~= current_dir());
            }
            Ok(TargetPlan { resolved: here, provision: Provision::Keep })
        },
        Some(path) => {
            let mut provision = Provision::Keep;
            if !target_exists && !path_has_extension(path.as_str()) {
                provision = if dry {
                    Provision::AnnounceDirectory
                } else {
                    Provision::CreateDirectory
                };
            }
            Ok(TargetPlan { resolved: path.clone(), provision })
        },
    }
}

/// What validation ends in, given the plan, the outcome of creating the
/// directory (consulted only where the plan asked for it) and the
/// readability of the resolved target (consulted only outside a dry run).
pub open spec fn outcome(
    source: Seq<char>,
    plan: TargetPlan,
    dry: bool,
    creation: Result<(), String>,
    target_readable: bool,
) -> Result<String, ValidationError> {
    if plan.provision == Provision::CreateDirectory && creation is Err {
        Err(ValidationError::DirectoryCreationFailed { path: plan.resolved, cause: creation->Err_0 })
    } else if !dry && !target_readable {
        Err(ValidationError::TargetUnreadable)
    } else if plan.resolved@ == source {
        Err(ValidationError::SameSourceAndTarget)
    } else {
        Ok(plan.resolved)
    }
}

/// Second half of validation: settles the directory creation, checks the
/// target's readability outside a dry run and refuses a target that is the
/// source itself. On success the resolved target is handed back.
pub fn validate_paths(
    source: &String,
    plan: TargetPlan,
    dry: bool,
    creation: Result<(), String>,
    target_readable: bool,
) -> (r: Result<String, ValidationError>)
    ensures
        r == outcome(source@, plan, dry, creation, target_readable),
{
    if let Provision::CreateDirectory = plan.provision {
        if let Err(cause) = creation {
            return Err(ValidationError::DirectoryCreationFailed { path: plan.resolved, cause });
        }
    }
    if !dry && !target_readable {
        return Err(ValidationError::TargetUnreadable);
    }
    if *source == plan.resolved {
        return Err(ValidationError::SameSourceAndTarget);
    }
    Ok(plan.resolved)
}


/// Without a target, a normal run over a readable source resolves to the
/// current directory, provided the source is not the current directory
/// itself and the current directory is readable.
pub proof fn lemma_absent_target_is_current_dir(
    source: Seq<char>,
    plan: TargetPlan,
    target_exists: bool,
    creation: Result<(), String>,
)
    requires
        plan.resolved@ == resolved_target(None),
        plan.provision == provision_for(None, target_exists, false),
        source != current_dir(),
    ensures
        plan.provision == Provision::Keep,
        outcome(source, plan, false, creation, true) == Ok::<String, ValidationError>(plan.resolved),
        plan.resolved@ == current_dir(),
{
}

/// A missing target without an extension is created in a normal run and
/// becomes the resolved target. Validating again once it exists plans no
/// creation and resolves to the same path.
pub proof fn lemma_missing_directory_is_created_once(
    source: Seq<char>,
    target: Seq<char>,
    first: TargetPlan,
    again: TargetPlan,
    creation: Result<(), String>,
)
    requires
        !has_extension(target),
        target != source,
        first.resolved@ == resolved_target(Some(target)),
        first.provision == provision_for(Some(target), false, false),
        again.resolved@ == resolved_target(Some(target)),
        again.provision == provision_for(Some(target), true, false),
        creation is Ok,
    ensures
        first.provision == Provision::CreateDirectory,
        outcome(source, first, false, creation, true) == Ok::<String, ValidationError>(first.resolved),
        first.resolved@ == target,
        again.provision == Provision::Keep,
        outcome(source, again, false, creation, true) == Ok::<String, ValidationError>(again.resolved),
        again.resolved@ == target,
{
}

/// In a dry run a missing target without an extension is only announced,
/// never created, and validation still succeeds with that target, whatever
/// the probes of the target say.
pub proof fn lemma_dry_run_only_announces(
    source: Seq<char>,
    target: Seq<char>,
    plan: TargetPlan,
    creation: Result<(), String>,
    target_readable: bool,
)
    requires
        !has_extension(target),
        target != source,
        plan.resolved@ == resolved_target(Some(target)),
        plan.provision == provision_for(Some(target), false, true),
    ensures
        plan.provision == Provision::AnnounceDirectory,
        outcome(source, plan, true, creation, target_readable) == Ok::<String, ValidationError>(plan.resolved),
        plan.resolved@ == target,
{
}

/// A target that is the source itself is always refused as such, once the
/// earlier steps have passed: the source is readable, so is the target (it
/// is the same path), and any creation succeeded.
pub proof fn lemma_same_source_and_target(
    path: Seq<char>,
    plan: TargetPlan,
    target_exists: bool,
    dry: bool,
    creation: Result<(), String>,
)
    requires
        plan.resolved@ == resolved_target(Some(path)),
        plan.provision == provision_for(Some(path), target_exists, dry),
        creation is Ok,
    ensures
        outcome(path, plan, dry, creation, true) == Err::<String, ValidationError>(ValidationError::SameSourceAndTarget),
{
}

} // verus!
