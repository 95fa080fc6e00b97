//! Destination resolution and aggregation, driven against a small in-memory
//! stand-in for the filesystem answers the library asks for.

use aitios_cli::aggregate::{Aggregator, DestinationSet};
use aitios_cli::error::SetupError;
use aitios_cli::normalize::{FsOutcome, PathKind, ResolutionPlan, finish_resolution, plan_resolution};
use aitios_cli::pathstr::{file_name_of, join_path, parent_of, substitute_datetime};
use aitios_cli::timestamp::synthesize_datetime_log_filename;

const TS: &str = "2018-07-17T18_06_53.800963444+02_00";

/// The filesystem answers one test run hands the library.
struct FakeFs {
    /// Existing directories and their canonical forms.
    dirs: Vec<(String, String)>,
    /// Existing regular files and their canonical forms.
    files: Vec<(String, String)>,
    /// The canonical working directory, if it can be determined.
    cwd: Option<String>,
    /// Directory chains that creation would succeed on, with the canonical
    /// form they get once created.
    creatable: Vec<(String, String)>,
}

impl FakeFs {
    fn with_cwd(cwd: &str) -> FakeFs {
        FakeFs { dirs: Vec::new(), files: Vec::new(), cwd: Some(cwd.to_string()), creatable: Vec::new() }
    }

    fn dir(mut self, path: &str, canonical: &str) -> FakeFs {
        self.dirs.push((path.to_string(), canonical.to_string()));
        self
    }

    fn file(mut self, path: &str, canonical: &str) -> FakeFs {
        self.files.push((path.to_string(), canonical.to_string()));
        self
    }

    fn creatable(mut self, path: &str, canonical: &str) -> FakeFs {
        self.creatable.push((path.to_string(), canonical.to_string()));
        self
    }

    fn kind(&self, p: &str) -> PathKind {
        if self.dirs.iter().any(|(d, _)| d == p) {
            PathKind::Directory
        } else if self.files.iter().any(|(f, _)| f == p) {
            PathKind::File
        } else {
            PathKind::Missing
        }
    }

    fn canon(&self, p: &str) -> Option<String> {
        self.dirs
            .iter()
            .chain(self.files.iter())
            .find(|(q, _)| q == p)
            .map(|(_, c)| c.clone())
    }

    fn is_dir(&self, p: &str) -> bool {
        self.kind(p) == PathKind::Directory
    }

    /// Carries out the one filesystem action a plan asks for.
    fn perform(&mut self, plan: &ResolutionPlan) -> FsOutcome {
        match plan {
            ResolutionPlan::TargetItself { target } => match self.canon(target) {
                Some(c) => FsOutcome::Canonicalized(c),
                None => FsOutcome::CanonicalizeFailed,
            },
            ResolutionPlan::CwdThenLeaf { .. } => match &self.cwd {
                Some(w) => FsOutcome::Canonicalized(w.clone()),
                None => FsOutcome::CanonicalizeFailed,
            },
            ResolutionPlan::DirThenLeaf { dir, create_first, .. } => {
                if *create_first {
                    match self.creatable.iter().position(|(p, _)| p == dir) {
                        Some(at) => {
                            let (p, c) = self.creatable.remove(at);
                            self.dirs.push((p, c));
                        }
                        None => return FsOutcome::CreateFailed,
                    }
                }
                match self.canon(dir) {
                    Some(c) => FsOutcome::Canonicalized(c),
                    None => FsOutcome::CanonicalizeFailed,
                }
            }
            ResolutionPlan::Unresolvable => FsOutcome::CanonicalizeFailed,
        }
    }
}

/// One normalization run: substitute, probe, plan, perform, finish — the
/// loop the embedding binary runs against the real filesystem.
fn resolve(fs: &mut FakeFs, raw: &str, ts: &str) -> Result<String, SetupError> {
    let subst = substitute_datetime(raw, ts);
    let target_kind = fs.kind(&subst);
    let parent_kind = match parent_of(&subst) {
        Some(p) if !p.is_empty() => fs.kind(&p),
        _ => PathKind::Missing,
    };
    let plan = plan_resolution(subst, ts, target_kind, parent_kind);
    let outcome = fs.perform(&plan);
    finish_resolution(&plan, outcome, raw)
}

/// One aggregation run over the fake filesystem, failing fast.
fn aggregate(
    fs: &mut FakeFs,
    explicit: &[&str],
    occurrences: u64,
    injected: &[&str],
    ts: &str,
) -> Result<DestinationSet, SetupError> {
    let explicit: Vec<String> = explicit.iter().map(|s| s.to_string()).collect();
    let injected: Vec<String> = injected.iter().map(|s| s.to_string()).collect();
    let mut agg = Aggregator::new(explicit, occurrences, injected, ts);
    while let Some(raw) = agg.peek_next() {
        let r = resolve(fs, &raw, ts);
        agg.push_result(r);
    }
    agg.into_destinations()
}

fn set_contents(d: &DestinationSet) -> Vec<String> {
    let mut v = Vec::new();
    for i in 0..d.len() {
        v.push(d.path_at(i).clone());
    }
    v
}

#[test]
fn test_log_arg_with_datetime() {
    let mut fs = FakeFs::with_cwd("/work").dir(".", "/work");
    let expected = format!("/work/logovic-{datetime}.log", datetime = TS);
    let actual = resolve(&mut fs, "./logovic-{datetime}.log", TS).unwrap();
    assert_eq!(expected.len(), actual.len());
    assert_eq!(expected, actual);
}

#[test]
fn test_log_arg_with_dot() {
    let mut fs = FakeFs::with_cwd("/work").dir(".", "/work");
    assert_eq!(
        "/work/loggy.log".to_string(),
        resolve(&mut fs, "./loggy.log", TS).unwrap()
    );
}

#[test]
fn test_log_arg_with_dotdot() {
    let mut fs = FakeFs::with_cwd("/work").dir("..", "/parent");
    assert_eq!(
        "/parent/loggy.log".to_string(),
        resolve(&mut fs, "../loggy.log", TS).unwrap()
    );
}

#[test]
fn no_log_file_when_no_log_arg() {
    let mut fs = FakeFs::with_cwd("/work");
    let log_file_paths = aggregate(&mut fs, &[], 0, &[], TS)
        .expect("Expect canonical log file calculation to succeed with no log switch");
    assert!(
        log_file_paths.is_empty(),
        "Expected no log files without log switch."
    );
}

#[test]
fn test_default_log_name_added() {
    let mut fs = FakeFs::with_cwd("/work");
    let log_file_paths = aggregate(&mut fs, &[], 1, &[], TS)
        .expect("Expect canonical log file calculation to succeed with value-less log switch");
    assert_eq!(
        1,
        log_file_paths.len(),
        "Expected exactly one log file path, namely the default one."
    );
    let expected = join_path("/work", &synthesize_datetime_log_filename(TS));
    let actual = set_contents(&log_file_paths).remove(0);
    assert_eq!(
        expected.len(),
        actual.len(),
        "The default added log name has an unexpected length"
    );
    assert_eq!(
        expected, actual,
        "The default added log name looks different in the part until day of month"
    );
}

#[test]
fn directory_as_log_path() {
    let mut fs = FakeFs::with_cwd("/work").dir("..", "/parent");
    let log_file_paths = aggregate(&mut fs, &[".."], 1, &[], TS)
        .expect("Expect canonical log file calculation to succeed");
    assert_eq!(
        1,
        log_file_paths.len(),
        "Expected 1 log file under the parent directory but got {:?}.",
        set_contents(&log_file_paths)
    );
    let log_file = set_contents(&log_file_paths).remove(0);
    let parent_of_log_file_path = parent_of(&log_file).unwrap();
    assert_eq!(
        "/parent", parent_of_log_file_path,
        "Expected generated default log file to be in parent directory but got {:?}.",
        set_contents(&log_file_paths)
    );
}

#[test]
fn create_intermediary_directories() {
    let pattern = "/tmp/{datetime}/some/dir/logggg.log";
    let expected_log_path = pattern.replace("{datetime}", TS);
    let expected_parent = format!("/tmp/{}/some/dir", TS);
    let mut fs = FakeFs::with_cwd("/work").creatable(&expected_parent, &expected_parent);
    let log_file_paths = aggregate(&mut fs, &[pattern], 1, &[], TS)
        .expect("Expect canonical log file calculation to succeed");
    assert!(
        fs.is_dir(&expected_parent),
        "Expected canonical log file path lookup to create the necessary directories"
    );
    assert_eq!(1, log_file_paths.len());
    assert_eq!(expected_log_path, set_contents(&log_file_paths).remove(0));
}

#[test]
fn test_duplicate_log_file_removal() {
    let mut fs = FakeFs::with_cwd("/work")
        .dir(".", "/work")
        .dir("./.", "/work");
    let log_file_paths = aggregate(
        &mut fs,
        &["log1.log", "././log1.log", "."],
        4,
        &["log2.log", "./log1.log", "."],
        TS,
    )
    .expect("Expect canonical log file calculation to succeed");
    assert_eq!(
        3,
        log_file_paths.len(),
        "Expected 3 log files (log1.log, log2.log, aitios-log-DATE.log), but found {:?}.",
        set_contents(&log_file_paths)
    );
}

#[test]
fn normalize_twice_is_idempotent() {
    // The second run sees the directory chain the first run created and
    // resolves to the identical path.
    let parent = "logs/july";
    let mut fs = FakeFs::with_cwd("/work").creatable(parent, "/work/logs/july");
    let first = resolve(&mut fs, "logs/july/run.log", TS).unwrap();
    let second = resolve(&mut fs, "logs/july/run.log", TS).unwrap();
    assert_eq!(first, second);
    assert_eq!("/work/logs/july/run.log", first);
}

#[test]
fn directory_target_gets_default_filename() {
    let mut fs = FakeFs::with_cwd("/work").dir("out", "/data/out");
    let resolved = resolve(&mut fs, "out", TS).unwrap();
    assert_eq!(synthesize_datetime_log_filename(TS), file_name_of(&resolved));
    assert_eq!("/data/out", parent_of(&resolved).unwrap());
}

#[test]
fn existing_file_resolves_to_canonical_form() {
    let mut fs = FakeFs::with_cwd("/work").file("old.log", "/work/old.log");
    assert_eq!("/work/old.log", resolve(&mut fs, "old.log", TS).unwrap());
}

#[test]
fn bare_filename_resolves_under_cwd() {
    let mut fs = FakeFs::with_cwd("/somewhere/deep");
    assert_eq!(
        "/somewhere/deep/plain.log",
        resolve(&mut fs, "plain.log", TS).unwrap()
    );
}

#[test]
fn empty_destination_is_unresolvable() {
    let mut fs = FakeFs::with_cwd("/work");
    match resolve(&mut fs, "", TS) {
        Err(SetupError::PathUnresolvable { raw }) => assert_eq!("", raw),
        other => panic!("expected PathUnresolvable, got {:?}", other.is_ok()),
    }
}

#[test]
fn uncreatable_parent_fails_creation() {
    let mut fs = FakeFs::with_cwd("/work");
    match resolve(&mut fs, "/readonly/sub/x.log", TS) {
        Err(SetupError::DirectoryCreationFailed { raw }) => {
            assert_eq!("/readonly/sub/x.log", raw)
        }
        other => panic!("expected DirectoryCreationFailed, got {:?}", other.is_ok()),
    }
}

#[test]
fn parent_that_is_a_file_is_unresolvable() {
    let mut fs = FakeFs::with_cwd("/work").file("taken", "/work/taken");
    match resolve(&mut fs, "taken/x.log", TS) {
        Err(SetupError::PathUnresolvable { raw }) => assert_eq!("taken/x.log", raw),
        other => panic!("expected PathUnresolvable, got {:?}", other.is_ok()),
    }
}

#[test]
fn aggregation_fails_fast_on_first_error() {
    let mut fs = FakeFs::with_cwd("/work");
    let result = aggregate(&mut fs, &["", "fine.log"], 2, &[], TS);
    match result {
        Err(SetupError::PathUnresolvable { raw }) => assert_eq!("", raw),
        _ => panic!("expected the aggregation to abort with the first error"),
    }
}

#[test]
fn default_synthesis_counts_occurrences() {
    // Two explicit values and five occurrences: exactly one default joins,
    // however many empty occurrences there are beyond the first.
    let mut fs = FakeFs::with_cwd("/work");
    let many = aggregate(&mut fs, &["a.log", "b.log"], 5, &[], TS).unwrap();
    assert_eq!(3, many.len());
    let mut fs = FakeFs::with_cwd("/work");
    let exact = aggregate(&mut fs, &["a.log", "b.log"], 2, &[], TS).unwrap();
    assert_eq!(2, exact.len());
    let expected_default = join_path("/work", &synthesize_datetime_log_filename(TS));
    assert!(many.contains_path(&expected_default));
    assert!(!exact.contains_path(&expected_default));
}

#[test]
fn destination_set_deduplicates_by_value() {
    let mut set = DestinationSet::new();
    set.insert("/a/b.log".to_string());
    set.insert("/a/c.log".to_string());
    set.insert("/a/b.log".to_string());
    assert_eq!(2, set.len());
    assert!(set.contains_path(&"/a/b.log".to_string()));
    assert!(set.contains_path(&"/a/c.log".to_string()));
    assert_eq!("/a/b.log", set.path_at(0).as_str());
    assert_eq!("/a/c.log", set.path_at(1).as_str());
}

#[test]
fn substitution_replaces_every_token() {
    assert_eq!("aTbT", substitute_datetime("a{datetime}b{datetime}", "T"));
    assert_eq!("plain.log", substitute_datetime("plain.log", "T"));
    assert_eq!("", substitute_datetime("", "T"));
    assert_eq!(
        "{datetime",
        substitute_datetime("{datetime", "2020")
    );
}

#[test]
fn path_components_behave_like_paths() {
    assert_eq!(None, parent_of(""));
    assert_eq!(None, parent_of("/"));
    assert_eq!(Some("".to_string()), parent_of("plain.log"));
    assert_eq!(Some("/".to_string()), parent_of("/a"));
    assert_eq!(Some("a".to_string()), parent_of("a/b"));
    assert_eq!(Some("/tmp/x".to_string()), parent_of("/tmp/x/y.log"));
    assert_eq!("b", file_name_of("a/b/"));
    assert_eq!("plain.log", file_name_of("plain.log"));
    assert_eq!("/x", join_path("/", "x"));
    assert_eq!("/a/x", join_path("/a", "x"));
}

#[test]
fn recorded_errors_end_the_aggregation() {
    let mut agg = Aggregator::new(vec!["a.log".to_string()], 1, Vec::new(), TS);
    assert!(agg.peek_next().is_some());
    agg.push_result(Err(SetupError::SinkOpenFailed { path: "/a.log".to_string() }));
    assert!(agg.peek_next().is_none());
    match agg.into_destinations() {
        Err(SetupError::SinkOpenFailed { path }) => assert_eq!("/a.log", path),
        _ => panic!("expected the recorded error back"),
    }
}

#[test]
fn backend_installation_failure_is_carried_back() {
    let mut agg = Aggregator::new(vec!["a.log".to_string()], 1, Vec::new(), TS);
    assert!(agg.peek_next().is_some());
    agg.push_result(Err(SetupError::BackendInstallationFailed));
    match agg.into_destinations() {
        Err(SetupError::BackendInstallationFailed) => {}
        _ => panic!("expected the recorded error back"),
    }
}
