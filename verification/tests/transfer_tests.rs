use image_renamer::transfer::{
    action_for, execute_reports, failure_line, pair_report, success_line, transfer_mode,
    PairOutcome, ReportLevel, TransferAction, TransferMode,
};

#[test]
fn flags_choose_the_mode() {
    assert_eq!(transfer_mode(false, false), TransferMode::MoveFile);
    assert_eq!(transfer_mode(true, false), TransferMode::CopyFile);
    assert_eq!(transfer_mode(false, true), TransferMode::Simulate);
    assert_eq!(transfer_mode(true, true), TransferMode::Simulate);
}

#[test]
fn each_mode_asks_for_its_action() {
    assert_eq!(action_for(TransferMode::MoveFile), TransferAction::Rename);
    assert_eq!(action_for(TransferMode::CopyFile), TransferAction::CopyContents);
    assert_eq!(action_for(TransferMode::Simulate), TransferAction::NoOp);
}

#[test]
fn a_dry_run_never_asks_for_a_filesystem_action() {
    assert_eq!(action_for(transfer_mode(false, true)), TransferAction::NoOp);
    assert_eq!(action_for(transfer_mode(true, true)), TransferAction::NoOp);
}

#[test]
fn success_lines_name_the_operation_and_both_paths() {
    assert_eq!(success_line(false, false, "/s/a", "/d/p_0"), "move \"/s/a\" -> \"/d/p_0\"");
    assert_eq!(success_line(true, false, "/s/a", "/d/p_0"), "copy \"/s/a\" -> \"/d/p_0\"");
}

#[test]
fn simulated_lines_are_marked() {
    assert_eq!(
        success_line(false, true, "/s/a", "/d/p_0"),
        "[dry-run] move \"/s/a\" -> \"/d/p_0\""
    );
    assert_eq!(
        success_line(true, true, "/s/a", "/d/p_0"),
        "[dry-run] copy \"/s/a\" -> \"/d/p_0\""
    );
}

#[test]
fn failure_lines_carry_the_cause() {
    assert_eq!(
        failure_line(false, "/s/a", "/d/p_0", "Permission denied"),
        "Failed to move \"/s/a\" -> \"/d/p_0\": Permission denied"
    );
}

#[test]
fn a_successful_pair_reports_normally_only_when_verbose() {
    let verbose = pair_report(false, false, true, "/s/a", "/d/p_0", &Ok(()));
    assert_eq!(verbose.outcome, PairOutcome::Succeeded);
    assert_eq!(verbose.level, ReportLevel::Normal);
    assert_eq!(verbose.line, "move \"/s/a\" -> \"/d/p_0\"");

    let quiet = pair_report(false, false, false, "/s/a", "/d/p_0", &Ok(()));
    assert_eq!(quiet.outcome, PairOutcome::Succeeded);
    assert_eq!(quiet.level, ReportLevel::Diagnostic);
}

#[test]
fn a_failed_pair_is_always_an_error_whatever_the_verbosity() {
    let quiet = pair_report(true, false, false, "/s/a", "/d/p_0", &Err("disk full".to_string()));
    assert_eq!(quiet.outcome, PairOutcome::Failed);
    assert_eq!(quiet.level, ReportLevel::Error);
    assert_eq!(quiet.line, "Failed to copy \"/s/a\" -> \"/d/p_0\": disk full");

    let verbose = pair_report(true, false, true, "/s/a", "/d/p_0", &Err("disk full".to_string()));
    assert_eq!(verbose.level, ReportLevel::Error);
}

#[test]
fn one_failure_leaves_the_other_pairs_untouched() {
    let pairs = vec![
        ("/s/a".to_string(), "/d/p_0".to_string()),
        ("/s/b".to_string(), "/d/p_1".to_string()),
        ("/s/c".to_string(), "/d/p_2".to_string()),
    ];
    let results = vec![Ok(()), Err("Permission denied".to_string()), Ok(())];
    let reports = execute_reports(&pairs, false, false, true, &results);
    assert_eq!(reports.len(), 3);
    assert_eq!(reports[0].outcome, PairOutcome::Succeeded);
    assert_eq!(reports[1].outcome, PairOutcome::Failed);
    assert_eq!(reports[2].outcome, PairOutcome::Succeeded);
    let failures = reports
        .iter()
        .filter(|r| r.outcome == PairOutcome::Failed)
        .count();
    assert_eq!(failures, 1);
    assert_eq!(reports[0].line, "move \"/s/a\" -> \"/d/p_0\"");
    assert_eq!(reports[1].line, "Failed to move \"/s/b\" -> \"/d/p_1\": Permission denied");
    assert_eq!(reports[1].level, ReportLevel::Error);
    assert_eq!(reports[2].line, "move \"/s/c\" -> \"/d/p_2\"");
}

#[test]
fn a_simulated_batch_succeeds_and_marks_every_line() {
    let pairs = vec![
        ("/s/a".to_string(), "/d/p_0".to_string()),
        ("/s/b".to_string(), "/d/p_1".to_string()),
    ];
    let results = vec![Ok(()), Ok(())];
    let reports = execute_reports(&pairs, false, true, false, &results);
    assert_eq!(reports.len(), 2);
    for r in &reports {
        assert_eq!(r.outcome, PairOutcome::Succeeded);
        assert_eq!(r.level, ReportLevel::Diagnostic);
        assert!(r.line.starts_with("[dry-run] "));
    }
}
