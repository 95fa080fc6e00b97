//! The destination normalizer: one raw destination string plus the
//! timestamp token become one canonical absolute path.
//!
//! The algorithm needs a handful of filesystem answers: what a path
//! currently is, what a path canonicalizes to, whether a directory chain can
//! be created. Those calls are performed by the embedding binary; here they
//! are modeled by [`FsModel`], and the decisions around them are made by two
//! verified steps. [`plan_resolution`] turns the substituted destination and
//! the probed kinds into a [`ResolutionPlan`] naming the one filesystem
//! action that is still needed; [`finish_resolution`] turns that action's
//! outcome into the final canonical path or error. The lemma
//! [`lemma_resolution_composition`] shows that the two steps, fed with
//! answers drawn from a filesystem model, compute exactly
//! [`normalize_spec`], the whole algorithm over the model.

use vstd::prelude::*;
use crate::error::{ResolveError, SetupError, result_matches};
use crate::pathstr::{
    contains_sep, file_name_of, file_name_spec, join_spec, lemma_bare_filename, lemma_components,
    lemma_file_name_of_join, lemma_parent_of_join, parent_of, parent_of_spec,
    replace_datetime_spec, sep, strip_trailing_seps,
};
use crate::timestamp::{default_log_filename, is_filesystem_safe_spec};
use crate::timestamp::synthesize_datetime_log_filename;

verus! {

/// What a path currently is on the filesystem: a directory, a regular file,
/// absent, or present but neither a directory nor a regular file.
#[derive(Clone, Copy, PartialEq, Eq, Structural, Debug)]
pub enum PathKind {
    Directory,
    File,
    Missing,
    Other,
}

/// A model of the filesystem answers one resolution run can receive.
///
/// `kind` says what each path currently is (paths absent from the map are
/// missing); `canon` holds the canonical form of each path that
/// canonicalization would succeed on; `cwd` is the canonicalized working
/// directory, if it can be determined; `creatable` holds the paths that
/// directory creation would succeed on. A failed directory creation is
/// modeled as creating nothing.
pub ghost struct FsModel {
    pub kind: Map<Seq<char>, PathKind>,
    pub canon: Map<Seq<char>, Seq<char>>,
    pub cwd: Option<Seq<char>>,
    pub creatable: Set<Seq<char>>,
}

impl FsModel {
    /// What `p` currently is; paths outside the map are missing.
    pub open spec fn kind_of(self, p: Seq<char>) -> PathKind {
        if self.kind.contains_key(p) {
            self.kind[p]
        } else {
            PathKind::Missing
        }
    }
}

/// The one filesystem action a resolution still needs after planning.
pub enum ResolutionPlan {
    /// Create `dir` first when `create_first` is set, then canonicalize
    /// `dir` and append `leaf` to the canonical form.
    DirThenLeaf { dir: String, leaf: String, create_first: bool },
    /// Canonicalize the existing target itself.
    TargetItself { target: String },
    /// Canonicalize the working directory and append `leaf`.
    CwdThenLeaf { leaf: String },
    /// The destination cannot be resolved; fail without touching the
    /// filesystem.
    Unresolvable,
}

/// The plan at the level of the filesystem model.
pub ghost enum PlanModel {
    DirThenLeaf { dir: Seq<char>, leaf: Seq<char>, create_first: bool },
    TargetItself { target: Seq<char> },
    CwdThenLeaf { leaf: Seq<char> },
    Unresolvable,
}

impl View for ResolutionPlan {
    type V = PlanModel;

    open spec fn view(&self) -> PlanModel {
        match self {
            ResolutionPlan::DirThenLeaf { dir, leaf, create_first } => PlanModel::DirThenLeaf {
                dir: dir@,
                leaf: leaf@,
                create_first: *create_first,
            },
            ResolutionPlan::TargetItself { target } => PlanModel::TargetItself { target: target@ },
            ResolutionPlan::CwdThenLeaf { leaf } => PlanModel::CwdThenLeaf { leaf: leaf@ },
            ResolutionPlan::Unresolvable => PlanModel::Unresolvable,
        }
    }
}

/// The plan for a substituted destination, given what the destination and
/// its parent currently are. `parent_kind` is only consulted when the
/// destination itself is neither a directory nor a regular file and has a
/// nonempty parent component.
pub open spec fn plan_spec(
    subst: Seq<char>,
    ts: Seq<char>,
    target_kind: PathKind,
    parent_kind: PathKind,
) -> PlanModel {
    match target_kind {
        PathKind::Directory => PlanModel::DirThenLeaf {
            dir: subst,
            leaf: default_log_filename(ts),
            create_first: false,
        },
        PathKind::File => PlanModel::TargetItself { target: subst },
        _ => match parent_of_spec(subst) {
            Option::None => PlanModel::Unresolvable,
            Option::Some(par) => {
                if par.len() == 0 {
                    PlanModel::CwdThenLeaf { leaf: file_name_spec(subst) }
                } else {
                    match parent_kind {
                        PathKind::Directory => PlanModel::DirThenLeaf {
                            dir: par,
                            leaf: file_name_spec(subst),
                            create_first: false,
                        },
                        PathKind::Missing => PlanModel::DirThenLeaf {
                            dir: par,
                            leaf: file_name_spec(subst),
                            create_first: true,
                        },
                        _ => PlanModel::Unresolvable,
                    }
                }
            },
        },
    }
}

/// Decides how a substituted destination is resolved.
///
/// An existing directory receives the default log filename; an existing
/// regular file is canonicalized as it stands; otherwise the parent
/// component decides: the empty parent defers to the working directory, an
/// existing directory parent is used as it is, a missing parent is created
/// first, and anything else is unresolvable.
pub fn plan_resolution(
    subst: String,
    datetime: &str,
    target_kind: PathKind,
    parent_kind: PathKind,
) -> (p: ResolutionPlan)
    ensures
        p@ == plan_spec(subst@, datetime@, target_kind, parent_kind),
{
    match target_kind {
        PathKind::Directory => {
            let leaf = synthesize_datetime_log_filename(datetime);
            ResolutionPlan::DirThenLeaf { dir: subst, leaf, create_first: false }
        },
        PathKind::File => ResolutionPlan::TargetItself { target: subst },
        _ => {
            match parent_of(subst.as_str()) {
                Option::None => ResolutionPlan::Unresolvable,
                Option::Some(par) => {
                    if par.as_str().is_empty() {
                        let leaf = file_name_of(subst.as_str());
                        ResolutionPlan::CwdThenLeaf { leaf }
                    } else {
                        match parent_kind {
                            PathKind::Directory => {
                                let leaf = file_name_of(subst.as_str());
                                ResolutionPlan::DirThenLeaf { dir: par, leaf, create_first: false }
                            },
                            PathKind::Missing => {
                                let leaf = file_name_of(subst.as_str());
                                ResolutionPlan::DirThenLeaf { dir: par, leaf, create_first: true }
                            },
                            _ => ResolutionPlan::Unresolvable,
                        }
                    }
                },
            }
        },
    }
}

/// What came back from carrying a plan's filesystem action out.
pub enum FsOutcome {
    /// The directory creation the plan asked for failed.
    CreateFailed,
    /// Canonicalization failed.
    CanonicalizeFailed,
    /// Canonicalization succeeded with this path.
    Canonicalized(String),
}

/// The outcome at the level of the filesystem model.
pub ghost enum OutcomeModel {
    CreateFailed,
    CanonicalizeFailed,
    Canonicalized(Seq<char>),
}

impl View for FsOutcome {
    type V = OutcomeModel;

    open spec fn view(&self) -> OutcomeModel {
        match self {
            FsOutcome::CreateFailed => OutcomeModel::CreateFailed,
            FsOutcome::CanonicalizeFailed => OutcomeModel::CanonicalizeFailed,
            FsOutcome::Canonicalized(s) => OutcomeModel::Canonicalized(s@),
        }
    }
}

/// The final resolution result for a plan and the outcome of its action.
pub open spec fn finish_spec(
    plan: PlanModel,
    outcome: OutcomeModel,
    raw: Seq<char>,
) -> Result<Seq<char>, ResolveError> {
    match plan {
        PlanModel::Unresolvable => Result::Err(ResolveError::Unresolvable { raw }),
        PlanModel::TargetItself { .. } => match outcome {
            OutcomeModel::Canonicalized(c) => Result::Ok(c),
            _ => Result::Err(ResolveError::Unresolvable { raw }),
        },
        PlanModel::CwdThenLeaf { leaf } => match outcome {
            OutcomeModel::Canonicalized(w) => Result::Ok(join_spec(w, leaf)),
            _ => Result::Err(ResolveError::Unresolvable { raw }),
        },
        PlanModel::DirThenLeaf { dir, leaf, create_first } => match outcome {
            OutcomeModel::Canonicalized(c) => Result::Ok(join_spec(c, leaf)),
            OutcomeModel::CreateFailed => {
                if create_first {
                    Result::Err(ResolveError::CreationFailed { raw })
                } else {
                    Result::Err(ResolveError::Unresolvable { raw })
                }
            },
            OutcomeModel::CanonicalizeFailed => Result::Err(ResolveError::Unresolvable { raw }),
        },
    }
}

/// Turns the outcome of a plan's filesystem action into the resolved
/// canonical path, or the error the algorithm assigns to the failure: a
/// failed directory creation is a creation failure, every other failure
/// leaves the original raw destination unresolvable.
pub fn finish_resolution(plan: &ResolutionPlan, outcome: FsOutcome, raw: &str) -> (r: Result<
    String,
    SetupError,
>)
    ensures
        result_matches(r, finish_spec(plan@, outcome@, raw@)),
{
    match plan {
        ResolutionPlan::Unresolvable => Err(
            SetupError::PathUnresolvable { raw: raw.to_owned() },
        ),
        ResolutionPlan::TargetItself { .. } => match outcome {
            FsOutcome::Canonicalized(c) => Ok(c),
            _ => Err(SetupError::PathUnresolvable { raw: raw.to_owned() }),
        },
        ResolutionPlan::CwdThenLeaf { leaf } => match outcome {
            FsOutcome::Canonicalized(w) => Ok(crate::pathstr::join_path(w.as_str(), leaf.as_str())),
            _ => Err(SetupError::PathUnresolvable { raw: raw.to_owned() }),
        },
        ResolutionPlan::DirThenLeaf { leaf, create_first, .. } => match outcome {
            FsOutcome::Canonicalized(c) => Ok(
                crate::pathstr::join_path(c.as_str(), leaf.as_str()),
            ),
            FsOutcome::CreateFailed => {
                if *create_first {
                    Err(SetupError::DirectoryCreationFailed { raw: raw.to_owned() })
                } else {
                    Err(SetupError::PathUnresolvable { raw: raw.to_owned() })
                }
            },
            FsOutcome::CanonicalizeFailed => Err(
                SetupError::PathUnresolvable { raw: raw.to_owned() },
            ),
        },
    }
}

/// The whole normalization algorithm over the filesystem model: the raw
/// destination with the timestamp substituted is resolved against what the
/// filesystem currently holds.
pub open spec fn normalize_spec(fs: FsModel, raw: Seq<char>, ts: Seq<char>) -> Result<
    Seq<char>,
    ResolveError,
> {
    let p = replace_datetime_spec(raw, ts);
    match fs.kind_of(p) {
        PathKind::Directory => {
            if fs.canon.contains_key(p) {
                Result::Ok(join_spec(fs.canon[p], default_log_filename(ts)))
            } else {
                Result::Err(ResolveError::Unresolvable { raw })
            }
        },
        PathKind::File => {
            if fs.canon.contains_key(p) {
                Result::Ok(fs.canon[p])
            } else {
                Result::Err(ResolveError::Unresolvable { raw })
            }
        },
        _ => match parent_of_spec(p) {
            Option::None => Result::Err(ResolveError::Unresolvable { raw }),
            Option::Some(par) => {
                if par.len() == 0 {
                    match fs.cwd {
                        Option::Some(w) => Result::Ok(join_spec(w, file_name_spec(p))),
                        Option::None => Result::Err(ResolveError::Unresolvable { raw }),
                    }
                } else {
                    match fs.kind_of(par) {
                        PathKind::Directory => {
                            if fs.canon.contains_key(par) {
                                Result::Ok(join_spec(fs.canon[par], file_name_spec(p)))
                            } else {
                                Result::Err(ResolveError::Unresolvable { raw })
                            }
                        },
                        PathKind::Missing => {
                            if fs.creatable.contains(par) {
                                if fs.canon.contains_key(par) {
                                    Result::Ok(join_spec(fs.canon[par], file_name_spec(p)))
                                } else {
                                    Result::Err(ResolveError::Unresolvable { raw })
                                }
                            } else {
                                Result::Err(ResolveError::CreationFailed { raw })
                            }
                        },
                        _ => Result::Err(ResolveError::Unresolvable { raw }),
                    }
                }
            },
        },
    }
}

/// The filesystem after one normalization run: the one directory chain the
/// algorithm creates now exists; everything else is untouched.
pub open spec fn fs_after_normalize(fs: FsModel, raw: Seq<char>, ts: Seq<char>) -> FsModel {
    let p = replace_datetime_spec(raw, ts);
    if fs.kind_of(p) is Directory || fs.kind_of(p) is File {
        fs
    } else {
        match parent_of_spec(p) {
            Option::Some(par) => {
                if par.len() > 0 && fs.kind_of(par) is Missing && fs.creatable.contains(par) {
                    FsModel { kind: fs.kind.insert(par, PathKind::Directory), ..fs }
                } else {
                    fs
                }
            },
            Option::None => fs,
        }
    }
}

/// Whether an outcome is the one the filesystem model gives for
/// canonicalizing `p`.
pub open spec fn canon_consistent(fs: FsModel, p: Seq<char>, outcome: OutcomeModel) -> bool {
    if fs.canon.contains_key(p) {
        outcome == OutcomeModel::Canonicalized(fs.canon[p])
    } else {
        outcome == OutcomeModel::CanonicalizeFailed
    }
}

/// Whether an outcome is one the filesystem model can give for carrying the
/// plan's action out.
pub open spec fn outcome_consistent(fs: FsModel, plan: PlanModel, outcome: OutcomeModel) -> bool {
    match plan {
        PlanModel::DirThenLeaf { dir, create_first, .. } => {
            if create_first && !fs.creatable.contains(dir) {
                outcome == OutcomeModel::CreateFailed
            } else {
                canon_consistent(fs, dir, outcome)
            }
        },
        PlanModel::TargetItself { target } => canon_consistent(fs, target, outcome),
        PlanModel::CwdThenLeaf { .. } => match fs.cwd {
            Option::Some(w) => outcome == OutcomeModel::Canonicalized(w),
            Option::None => outcome == OutcomeModel::CanonicalizeFailed,
        },
        PlanModel::Unresolvable => true,
    }
}

/// Planning from the model's probe answers and finishing with an outcome
/// the model allows computes exactly the whole algorithm over the model.
pub proof fn lemma_resolution_composition(
    fs: FsModel,
    raw: Seq<char>,
    ts: Seq<char>,
    parent_kind: PathKind,
    outcome: OutcomeModel,
)
    requires
        ({
            let p = replace_datetime_spec(raw, ts);
            &&& match parent_of_spec(p) {
                Option::Some(par) => (!(fs.kind_of(p) is Directory) && !(fs.kind_of(p) is File)
                    && par.len() > 0) ==> parent_kind == fs.kind_of(par),
                Option::None => true,
            }
            &&& outcome_consistent(
                fs,
                plan_spec(p, ts, fs.kind_of(p), parent_kind),
                outcome,
            )
        }),
    ensures
        ({
            let p = replace_datetime_spec(raw, ts);
            finish_spec(plan_spec(p, ts, fs.kind_of(p), parent_kind), outcome, raw)
                == normalize_spec(fs, raw, ts)
        }),
{
}

/// A filesystem-safe timestamp yields a nonempty default log filename free
/// of path separators.
pub proof fn lemma_default_filename_is_leaf(ts: Seq<char>)
    requires
        is_filesystem_safe_spec(ts),
    ensures
        default_log_filename(ts).len() > 0,
        !contains_sep(default_log_filename(ts)),
{
    reveal_strlit("aitios-log-");
    reveal_strlit(".log");
    let d = default_log_filename(ts);
    assert forall|i: int| 0 <= i < d.len() implies d[i] != sep() by {
        if i < 11 {
            assert("aitios-log-"@[i] != '/');
        } else if i < 11 + ts.len() {
            assert(crate::timestamp::is_safe_char(ts[i - 11]));
        } else {
            assert(".log"@[i - 11 - ts.len()] != '/');
        }
    }
}

/// Idempotence: normalizing the same raw destination again, with the same
/// timestamp, against the filesystem as the first successful run left it,
/// yields the identical canonical path.
pub proof fn lemma_normalize_idempotent(fs: FsModel, raw: Seq<char>, ts: Seq<char>)
    requires
        normalize_spec(fs, raw, ts) is Ok,
    ensures
        normalize_spec(fs_after_normalize(fs, raw, ts), raw, ts) == normalize_spec(fs, raw, ts),
{
    let p = replace_datetime_spec(raw, ts);
    let fs2 = fs_after_normalize(fs, raw, ts);
    if !(fs.kind_of(p) is Directory) && !(fs.kind_of(p) is File) {
        match parent_of_spec(p) {
            Option::Some(par) => {
                if par.len() > 0 && fs.kind_of(par) is Missing && fs.creatable.contains(par) {
                    lemma_components(p);
                    assert(strip_trailing_seps(p).len() > 0);
                    assert(par.len() < p.len());
                    assert(fs2.kind_of(p) == fs.kind_of(p));
                    assert(fs2.kind_of(par) is Directory);
                }
            },
            Option::None => {},
        }
    }
}

/// Directory-target property: when the substituted destination is an
/// existing directory, the filename component of the normalized result is
/// exactly the synthesized default filename for the given timestamp.
pub proof fn lemma_directory_target(fs: FsModel, raw: Seq<char>, ts: Seq<char>)
    requires
        is_filesystem_safe_spec(ts),
        fs.kind_of(replace_datetime_spec(raw, ts)) is Directory,
        normalize_spec(fs, raw, ts) is Ok,
    ensures
        file_name_spec(normalize_spec(fs, raw, ts)->Ok_0) == default_log_filename(ts),
{
    let p = replace_datetime_spec(raw, ts);
    lemma_default_filename_is_leaf(ts);
    lemma_file_name_of_join(fs.canon[p], default_log_filename(ts));
}

/// Parent auto-creation: when the destination is absent and its parent
/// component is a missing but creatable directory with a canonical form,
/// normalization succeeds, the model afterwards holds that parent as a
/// directory, and the parent component of the result is the parent's
/// canonical form.
pub proof fn lemma_parent_auto_creation(fs: FsModel, raw: Seq<char>, ts: Seq<char>)
    requires
        ({
            let p = replace_datetime_spec(raw, ts);
            &&& !(fs.kind_of(p) is Directory)
            &&& !(fs.kind_of(p) is File)
            &&& parent_of_spec(p) matches Some(par) && par.len() > 0 && fs.kind_of(par) is Missing
                && fs.creatable.contains(par) && fs.canon.contains_key(par) && ({
                let c = fs.canon[par];
                c.len() > 0 && c[0] == sep() && (c == seq![sep()] || c.last() != sep())
            })
        }),
    ensures
        ({
            let p = replace_datetime_spec(raw, ts);
            match parent_of_spec(p) {
                Option::Some(par) => {
                    let c = fs.canon[par];
                    &&& fs_after_normalize(fs, raw, ts).kind_of(par) is Directory
                    &&& normalize_spec(fs, raw, ts) == Result::<Seq<char>, ResolveError>::Ok(
                        join_spec(c, file_name_spec(p)),
                    )
                    &&& parent_of_spec(join_spec(c, file_name_spec(p))) == Option::Some(c)
                },
                Option::None => false,
            }
        }),
{
    let p = replace_datetime_spec(raw, ts);
    match parent_of_spec(p) {
        Option::Some(par) => {
            lemma_components(p);
            lemma_parent_of_join(fs.canon[par], file_name_spec(p));
        },
        Option::None => {},
    }
}

/// Relative single-component resolution: a bare filename with no directory
/// separator that does not yet exist resolves to the canonical working
/// directory with the filename appended.
pub proof fn lemma_relative_single_component(fs: FsModel, raw: Seq<char>, ts: Seq<char>)
    requires
        ({
            let p = replace_datetime_spec(raw, ts);
            &&& p.len() > 0
            &&& !contains_sep(p)
            &&& !(fs.kind_of(p) is Directory)
            &&& !(fs.kind_of(p) is File)
            &&& fs.cwd is Some
        }),
    ensures
        ({
            let p = replace_datetime_spec(raw, ts);
            normalize_spec(fs, raw, ts) == Result::<Seq<char>, ResolveError>::Ok(
                join_spec(fs.cwd->Some_0, p),
            )
        }),
{
    let p = replace_datetime_spec(raw, ts);
    lemma_bare_filename(p);
}

/// On success the normalized path is absolute, as long as every
/// canonicalization answer the filesystem gives is: it begins with the
/// separator.
pub proof fn lemma_result_absolute(fs: FsModel, raw: Seq<char>, ts: Seq<char>)
    requires
        forall|p: Seq<char>|
            fs.canon.contains_key(p) ==> (#[trigger] fs.canon[p]).len() > 0 && fs.canon[p][0]
                == sep(),
        fs.cwd matches Some(w) ==> w.len() > 0 && w[0] == sep(),
        normalize_spec(fs, raw, ts) is Ok,
    ensures
        normalize_spec(fs, raw, ts)->Ok_0.len() > 0,
        normalize_spec(fs, raw, ts)->Ok_0[0] == sep(),
{
}

} // verus!
