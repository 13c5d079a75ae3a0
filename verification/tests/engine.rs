use ext_case_converter::collect::collect_candidates;
use ext_case_converter::collect::PathKind;
use ext_case_converter::collect::ProbedEntry;
use ext_case_converter::collect::ScanEntry;
use ext_case_converter::paths::extension_of;
use ext_case_converter::paths::with_extension;
use ext_case_converter::rename::convert_outcome;
use ext_case_converter::rename::convert_plan;
use ext_case_converter::rename::RenameOutcome;
use ext_case_converter::rename::RenamePlan;
use ext_case_converter::rename::TargetCase;
use ext_case_converter::report::format_line;
use ext_case_converter::report::BatchReport;

fn file_entry(path: &str) -> ProbedEntry {
    ProbedEntry { path: path.to_string(), kind: PathKind::File, walk: Vec::new() }
}

fn scan(path: &str, is_file: bool, depth: usize) -> ScanEntry {
    ScanEntry { path: path.to_string(), is_file, depth }
}

#[test]
fn extension_is_the_suffix_after_the_last_dot() {
    assert_eq!(extension_of("/tmp/a.TXT"), Some("TXT".to_string()));
    assert_eq!(extension_of("archive.tar.gz"), Some("gz".to_string()));
    assert_eq!(extension_of("trailing."), Some("".to_string()));
}

#[test]
fn paths_without_extension() {
    assert_eq!(extension_of("/tmp/README"), None);
    assert_eq!(extension_of(".bashrc"), None);
    assert_eq!(extension_of("/tmp/.bashrc"), None);
    assert_eq!(extension_of("dir.d/plain"), None);
    assert_eq!(extension_of(""), None);
}

#[test]
fn with_extension_keeps_everything_through_the_dot() {
    assert_eq!(with_extension("/tmp/a.TXT", "txt"), "/tmp/a.txt");
    assert_eq!(with_extension("a.b.c", "C"), "a.b.C");
    assert_eq!(with_extension("/d.ir/x.jpg", "JPG"), "/d.ir/x.JPG");
}

#[test]
fn plan_lowercases_an_uppercase_extension() {
    match convert_plan("/tmp/a.TXT", TargetCase::Lower) {
        RenamePlan::Rename { new_path } => assert_eq!(new_path, "/tmp/a.txt"),
        _ => panic!("expected a rename"),
    }
}

#[test]
fn plan_uppercases_a_lowercase_extension() {
    match convert_plan("/tmp/photo.jpg", TargetCase::Upper) {
        RenamePlan::Rename { new_path } => assert_eq!(new_path, "/tmp/photo.JPG"),
        _ => panic!("expected a rename"),
    }
}

#[test]
fn plan_leaves_a_matching_extension_alone() {
    assert!(matches!(convert_plan("/tmp/a.txt", TargetCase::Lower), RenamePlan::NoChange));
    assert!(matches!(convert_plan("/tmp/a.TXT", TargetCase::Upper), RenamePlan::NoChange));
    assert!(matches!(convert_plan("trailing.", TargetCase::Lower), RenamePlan::NoChange));
}

#[test]
fn plan_fails_without_an_extension() {
    assert!(matches!(convert_plan("/tmp/README", TargetCase::Lower), RenamePlan::NoExtension));
    assert!(matches!(convert_plan("/tmp/.bashrc", TargetCase::Upper), RenamePlan::NoExtension));
}

#[test]
fn plan_folds_a_unicode_extension() {
    match convert_plan("/tmp/x.ÄÖ", TargetCase::Lower) {
        RenamePlan::Rename { new_path } => assert_eq!(new_path, "/tmp/x.äö"),
        _ => panic!("expected a rename"),
    }
}

#[test]
fn converting_twice_is_settled_after_the_first_pass() {
    let new_path = match convert_plan("/tmp/photo.JPG", TargetCase::Lower) {
        RenamePlan::Rename { new_path } => new_path,
        _ => panic!("expected a rename"),
    };
    assert_eq!(new_path, "/tmp/photo.jpg");
    assert!(matches!(convert_plan(&new_path, TargetCase::Lower), RenamePlan::NoChange));

    let raised = match convert_plan("notes.txt", TargetCase::Upper) {
        RenamePlan::Rename { new_path } => new_path,
        _ => panic!("expected a rename"),
    };
    assert!(matches!(convert_plan(&raised, TargetCase::Upper), RenamePlan::NoChange));
}

#[test]
fn outcome_of_a_successful_rename() {
    let plan = convert_plan("/tmp/a.TXT", TargetCase::Lower);
    match convert_outcome("/tmp/a.TXT", plan, None) {
        RenameOutcome::Renamed { old_path, new_path } => {
            assert_eq!(old_path, "/tmp/a.TXT");
            assert_eq!(new_path, "/tmp/a.txt");
        },
        _ => panic!("expected a renamed outcome"),
    }
}

#[test]
fn outcome_of_a_rejected_rename() {
    let plan = convert_plan("/tmp/a.TXT", TargetCase::Lower);
    let err = Some("permission denied".to_string());
    match convert_outcome("/tmp/a.TXT", plan, err) {
        RenameOutcome::Failed { path, error } => {
            assert_eq!(path, "/tmp/a.TXT");
            assert_eq!(error, "permission denied");
        },
        _ => panic!("expected a failed outcome"),
    }
}

#[test]
fn outcome_without_an_extension() {
    let plan = convert_plan("/tmp/README", TargetCase::Lower);
    match convert_outcome("/tmp/README", plan, None) {
        RenameOutcome::Failed { path, error } => {
            assert_eq!(path, "/tmp/README");
            assert_eq!(error, "no extension");
        },
        _ => panic!("expected a failed outcome"),
    }
}

#[test]
fn outcome_without_a_change() {
    let plan = convert_plan("/tmp/a.txt", TargetCase::Lower);
    match convert_outcome("/tmp/a.txt", plan, None) {
        RenameOutcome::Unchanged { path, reason } => {
            assert_eq!(path, "/tmp/a.txt");
            assert_eq!(reason, "no change needed");
        },
        _ => panic!("expected an unchanged outcome"),
    }
}

#[test]
fn shallow_scan_takes_only_direct_child_files() {
    let entries = vec![ProbedEntry {
        path: "/tmp/dir".to_string(),
        kind: PathKind::Dir,
        walk: vec![
            scan("/tmp/dir", false, 0),
            scan("/tmp/dir/x.jpg", true, 1),
            scan("/tmp/dir/sub", false, 1),
            scan("/tmp/dir/sub/y.jpg", true, 2),
        ],
    }];
    assert_eq!(collect_candidates(&entries, false), vec!["/tmp/dir/x.jpg".to_string()]);
}

#[test]
fn recursive_scan_takes_every_file() {
    let entries = vec![ProbedEntry {
        path: "/tmp/dir".to_string(),
        kind: PathKind::Dir,
        walk: vec![
            scan("/tmp/dir", false, 0),
            scan("/tmp/dir/x.jpg", true, 1),
            scan("/tmp/dir/sub", false, 1),
            scan("/tmp/dir/sub/y.jpg", true, 2),
        ],
    }];
    assert_eq!(
        collect_candidates(&entries, true),
        vec!["/tmp/dir/x.jpg".to_string(), "/tmp/dir/sub/y.jpg".to_string()]
    );
}

#[test]
fn collection_keeps_discovery_order_and_skips_missing_entries() {
    let entries = vec![
        file_entry("/tmp/b.PNG"),
        ProbedEntry { path: "/gone".to_string(), kind: PathKind::Missing, walk: Vec::new() },
        ProbedEntry {
            path: "/tmp/dir".to_string(),
            kind: PathKind::Dir,
            walk: vec![scan("/tmp/dir/a.gif", true, 1)],
        },
        file_entry("/tmp/c.BMP"),
    ];
    assert_eq!(
        collect_candidates(&entries, false),
        vec!["/tmp/b.PNG".to_string(), "/tmp/dir/a.gif".to_string(), "/tmp/c.BMP".to_string()]
    );
}

#[test]
fn empty_input_collects_nothing_and_reports_no_files() {
    let entries: Vec<ProbedEntry> = Vec::new();
    let candidates = collect_candidates(&entries, false);
    assert_eq!(candidates.len(), 0);
    let report = BatchReport::new(candidates.len());
    assert_eq!(report.processed(), 0);
    assert_eq!(report.total(), 0);
    assert_eq!(report.render(), "no files found");
}

#[test]
fn batch_over_one_file_reports_the_rename() {
    let entries = vec![file_entry("/tmp/a.TXT")];
    let candidates = collect_candidates(&entries, false);
    let mut report = BatchReport::new(candidates.len());
    for path in &candidates {
        let plan = convert_plan(path, TargetCase::Lower);
        let outcome = convert_outcome(path, plan, None);
        report.push(outcome);
    }
    assert_eq!(report.processed(), 1);
    assert_eq!(report.total(), 1);
    assert_eq!(report.lines(), vec!["/tmp/a.TXT -> /tmp/a.txt".to_string()]);
    assert_eq!(report.render(), "/tmp/a.TXT -> /tmp/a.txt\n");
}

#[test]
fn report_lines_cover_every_outcome_kind() {
    let renamed = RenameOutcome::Renamed {
        old_path: "/tmp/a.TXT".to_string(),
        new_path: "/tmp/a.txt".to_string(),
    };
    let unchanged = RenameOutcome::Unchanged {
        path: "/tmp/b.txt".to_string(),
        reason: "no change needed".to_string(),
    };
    let failed = RenameOutcome::Failed {
        path: "/tmp/README".to_string(),
        error: "no extension".to_string(),
    };
    assert_eq!(format_line(&renamed), "/tmp/a.TXT -> /tmp/a.txt");
    assert_eq!(format_line(&unchanged), "/tmp/b.txt (no change needed)");
    assert_eq!(format_line(&failed), "/tmp/README failed: no extension");

    let mut report = BatchReport::new(3);
    report.push(renamed);
    report.push(unchanged);
    report.push(failed);
    assert_eq!(
        report.render(),
        "/tmp/a.TXT -> /tmp/a.txt\n/tmp/b.txt (no change needed)\n/tmp/README failed: no extension\n"
    );
}

#[test]
fn progress_counts_follow_the_pushes() {
    let mut report = BatchReport::new(2);
    assert_eq!((report.processed(), report.total()), (0, 2));
    report.push(RenameOutcome::Unchanged {
        path: "a.txt".to_string(),
        reason: "no change needed".to_string(),
    });
    assert_eq!((report.processed(), report.total()), (1, 2));
    report.push(RenameOutcome::Failed {
        path: "b".to_string(),
        error: "no extension".to_string(),
    });
    assert_eq!((report.processed(), report.total()), (2, 2));
}
