use std::collections::BTreeMap;

use nargo_export::artifact::artifact_file_name;
use nargo_export::options::{select_packages, CompileOptions, ExportError, PackageSelection};
use nargo_export::report::{report_errors, Severity};
use nargo_export::unit::{PackageUnit, UnitAction, UnitEvent, UnitState};
use nargo_export::workspace::{aggregate_results, library_packages, Package, PackageKind};

fn opts(deny: bool, silence: bool) -> CompileOptions {
    CompileOptions { deny_warnings: deny, disable_macros: false, silence_warnings: silence }
}

/// What one package looks like to the driver below.
struct FakePackage {
    check_ok: bool,
    check_diags: Vec<Severity>,
    entries: Vec<(&'static str, bool)>,
}

/// Runs one package unit to its end against an in-memory export directory.
/// Returns the unit's result and the entry points it asked to compile.
fn drive(
    options: CompileOptions,
    pkg: &FakePackage,
    dir: &mut BTreeMap<String, Vec<u8>>,
) -> (Result<(), ExportError>, Vec<usize>) {
    let (mut unit, mut action) = PackageUnit::new(options);
    let mut attempted = Vec::new();
    loop {
        let event = match action {
            UnitAction::Check => UnitEvent::Checked {
                succeeded: pkg.check_ok,
                severities: pkg.check_diags.clone(),
            },
            UnitAction::Discover => UnitEvent::Discovered { count: pkg.entries.len() },
            UnitAction::Compile { entry } => {
                attempted.push(entry);
                let ok = pkg.entries[entry].1;
                let severities = if ok { Vec::new() } else { vec![Severity::Error] };
                UnitEvent::Compiled { succeeded: ok, severities }
            }
            UnitAction::Write { entry } => {
                let name = pkg.entries[entry].0;
                dir.insert(artifact_file_name(name), format!("program {}", name).into_bytes());
                UnitEvent::Written
            }
            UnitAction::Succeed => return (Ok(()), attempted),
            UnitAction::Fail { error } => return (Err(error), attempted),
        };
        action = unit.handle(&event).expect("event fits the state").action;
    }
}

fn lib(entries: Vec<(&'static str, bool)>) -> FakePackage {
    FakePackage { check_ok: true, check_diags: Vec::new(), entries }
}

#[test]
fn selection_both_flags_conflict() {
    let r = select_packages(Some("a".to_string()), true);
    assert_eq!(r, Err(ExportError::ConflictingSelection));
}

#[test]
fn selection_single_package() {
    let r = select_packages(Some("lib_a".to_string()), false);
    assert_eq!(r, Ok(PackageSelection::Selected("lib_a".to_string())));
}

#[test]
fn selection_workspace_and_default() {
    assert_eq!(select_packages(None, true), Ok(PackageSelection::All));
    assert_eq!(select_packages(None, false), Ok(PackageSelection::DefaultOrAll));
}

#[test]
fn warnings_pass_unless_denied() {
    let sev = vec![Severity::Warning, Severity::Warning];
    let allow = report_errors(true, &sev, opts(false, false));
    let deny = report_errors(true, &sev, opts(true, false));
    assert!(allow.passed);
    assert!(!deny.passed);
    assert_eq!(allow.printed, vec![0, 1]);
    assert_eq!(deny.printed, vec![0, 1]);
}

#[test]
fn silenced_warnings_still_denied() {
    let sev = vec![Severity::Warning, Severity::Error, Severity::Warning];
    let r = report_errors(true, &sev, opts(true, true));
    assert!(!r.passed);
    assert_eq!(r.printed, vec![1]);
    let only_warnings = report_errors(true, &vec![Severity::Warning], opts(true, true));
    assert!(!only_warnings.passed);
    assert!(only_warnings.printed.is_empty());
}

#[test]
fn errors_fail_and_are_printed() {
    let r = report_errors(true, &vec![Severity::Error], opts(false, true));
    assert!(!r.passed);
    assert_eq!(r.printed, vec![0]);
    let failed = report_errors(false, &Vec::new(), opts(false, false));
    assert!(!failed.passed);
    assert!(failed.printed.is_empty());
}

#[test]
fn fail_fast_within_package() {
    let pkg = lib(vec![("a", true), ("b", false), ("c", true)]);
    let mut dir = BTreeMap::new();
    let (r, attempted) = drive(opts(false, false), &pkg, &mut dir);
    assert_eq!(r, Err(ExportError::CompileFailed { entry: 1 }));
    assert_eq!(attempted, vec![0, 1]);
    assert!(dir.contains_key("a.json"));
    assert!(!dir.contains_key("b.json"));
    assert!(!dir.contains_key("c.json"));
}

#[test]
fn check_failure_attempts_nothing() {
    let pkg = FakePackage {
        check_ok: true,
        check_diags: vec![Severity::Warning],
        entries: vec![("f", true)],
    };
    let mut dir = BTreeMap::new();
    let (r, attempted) = drive(opts(true, false), &pkg, &mut dir);
    assert_eq!(r, Err(ExportError::CheckFailed));
    assert!(attempted.is_empty());
    assert!(dir.is_empty());
    let (r, _) = drive(opts(false, false), &pkg, &mut dir);
    assert_eq!(r, Ok(()));
    assert!(dir.contains_key("f.json"));
}

#[test]
fn rerun_overwrites_with_identical_artifacts() {
    let pkg = lib(vec![("f1", true), ("f2", true)]);
    let mut dir = BTreeMap::new();
    let (first, _) = drive(opts(false, false), &pkg, &mut dir);
    let once = dir.clone();
    let (second, _) = drive(opts(false, false), &pkg, &mut dir);
    assert_eq!(first, Ok(()));
    assert_eq!(second, Ok(()));
    assert_eq!(dir, once);
    assert_eq!(dir.len(), 2);
}

#[test]
fn failing_package_does_not_stop_another() {
    let failing = lib(vec![("x", false)]);
    let passing = lib(vec![("y", true), ("z", true)]);
    let mut dir = BTreeMap::new();
    let (ra, _) = drive(opts(false, false), &failing, &mut dir);
    let (rb, _) = drive(opts(false, false), &passing, &mut dir);
    assert!(dir.contains_key("y.json"));
    assert!(dir.contains_key("z.json"));
    assert!(!dir.contains_key("x.json"));
    assert_eq!(aggregate_results(&vec![ra, rb]), Err(ExportError::CompileFailed { entry: 0 }));
    assert_eq!(aggregate_results(&vec![rb, ra]), Err(ExportError::CompileFailed { entry: 0 }));
}

#[test]
fn binaries_only_workspace_is_trivial() {
    let packages = vec![
        Package { name: "bin_a".to_string(), kind: PackageKind::Binary },
        Package { name: "bin_b".to_string(), kind: PackageKind::Binary },
    ];
    let selected = library_packages(&packages);
    assert!(selected.is_empty());
    assert_eq!(aggregate_results(&Vec::new()), Ok(()));
}

#[test]
fn workspace_scenario_two_libraries_and_a_binary() {
    let packages = vec![
        Package { name: "lib_a".to_string(), kind: PackageKind::Library },
        Package { name: "lib_b".to_string(), kind: PackageKind::Library },
        Package { name: "bin_c".to_string(), kind: PackageKind::Binary },
    ];
    let fakes = vec![lib(vec![("f1", true), ("f2", true)]), lib(Vec::new()), lib(vec![("main", true)])];
    let selected = library_packages(&packages);
    assert_eq!(selected, vec![0, 1]);
    let mut dir = BTreeMap::new();
    let results: Vec<_> = selected.iter().map(|&i| drive(opts(false, false), &fakes[i], &mut dir).0).collect();
    assert_eq!(aggregate_results(&results), Ok(()));
    let names: Vec<_> = dir.keys().cloned().collect();
    assert_eq!(names, vec!["f1.json".to_string(), "f2.json".to_string()]);
}

#[test]
fn aggregate_picks_first_failure() {
    let rs = vec![Ok(()), Err(ExportError::CheckFailed), Err(ExportError::CompileFailed { entry: 3 })];
    assert_eq!(aggregate_results(&rs), Err(ExportError::CheckFailed));
    assert_eq!(aggregate_results(&vec![Ok(()), Ok(())]), Ok(()));
}

#[test]
fn library_packages_keep_order() {
    let packages = vec![
        Package { name: "b".to_string(), kind: PackageKind::Binary },
        Package { name: "l1".to_string(), kind: PackageKind::Library },
        Package { name: "l2".to_string(), kind: PackageKind::Library },
    ];
    assert_eq!(library_packages(&packages), vec![1, 2]);
    assert!(packages[1].is_library());
    assert!(!packages[0].is_library());
}

#[test]
fn empty_package_succeeds() {
    let (mut unit, _) = PackageUnit::new(opts(false, false));
    let r = unit.handle(&UnitEvent::Checked { succeeded: true, severities: Vec::new() }).unwrap();
    assert_eq!(r.action, UnitAction::Discover);
    let r = unit.handle(&UnitEvent::Discovered { count: 0 }).unwrap();
    assert_eq!(r.action, UnitAction::Succeed);
    assert_eq!(unit.state, UnitState::Succeeded);
}

#[test]
fn unexpected_event_is_refused() {
    let (mut unit, action) = PackageUnit::new(opts(false, false));
    assert_eq!(action, UnitAction::Check);
    assert!(unit.handle(&UnitEvent::Written).is_none());
    assert!(unit.handle(&UnitEvent::Discovered { count: 1 }).is_none());
    assert_eq!(unit.state, UnitState::Checking);
}

#[test]
fn compile_diagnostics_are_reported() {
    let (mut unit, _) = PackageUnit::new(opts(false, true));
    unit.handle(&UnitEvent::Checked { succeeded: true, severities: vec![Severity::Warning] }).unwrap();
    unit.handle(&UnitEvent::Discovered { count: 1 }).unwrap();
    let r = unit
        .handle(&UnitEvent::Compiled { succeeded: false, severities: vec![Severity::Warning, Severity::Error] })
        .unwrap();
    assert_eq!(r.action, UnitAction::Fail { error: ExportError::CompileFailed { entry: 0 } });
    assert_eq!(r.printed, vec![1]);
    assert_eq!(unit.state, UnitState::Failed { error: ExportError::CompileFailed { entry: 0 } });
}

#[test]
fn artifact_named_after_entry_point() {
    assert_eq!(artifact_file_name("f1"), "f1.json");
    assert_eq!(artifact_file_name(""), ".json");
}
