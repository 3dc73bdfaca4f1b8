use artifex_client_gtk::pages::{
    BatchExecutionPage, BatchOutcome, BatchSource, InspectReply, InspectionPage, UpgradePage,
    UpgradeProgress, UpgradeState,
};

#[test]
fn inspection_needs_a_client() {
    let mut page = InspectionPage::new();
    assert_eq!(page.operation_page().title(), "Inspection");
    assert!(!page.refresh());
    assert!(!page.is_spinning());
    page.set_client(true);
    assert!(page.refresh());
    assert!(page.is_spinning());
    assert!(!page.is_refresh_enabled());
    assert!(!page.operation_page().is_sensitive());
}

#[test]
fn inspection_shows_the_reply() {
    let mut page = InspectionPage::new();
    page.set_client(true);
    page.refresh();
    page.refresh_finished(Some(InspectReply { kernel_version: "6.1.0".to_string(), system_uptime: 9420 }));
    assert_eq!(page.kernel_version(), "6.1.0");
    assert_eq!(page.system_uptime(), "2h 37m");
    assert!(!page.is_spinning());
    assert!(page.is_refresh_enabled());
    page.refresh();
    page.refresh_finished(Some(InspectReply { kernel_version: "6.2".to_string(), system_uptime: 0 }));
    assert_eq!(page.system_uptime(), "0s");
    page.refresh();
    page.refresh_finished(None);
    assert_eq!(page.operation_page().last_error(), None);
    assert_eq!(page.kernel_version(), "6.2");
    assert_eq!(page.system_uptime(), "0s");
}

#[test]
fn upgrade_labels() {
    assert_eq!(UpgradePage::upgrade_state_text(UpgradeState::Failed), "Upgrade failed");
    assert_eq!(UpgradePage::upgrade_state_text(UpgradeState::Running), "Upgrade in progress...");
    assert_eq!(UpgradePage::upgrade_state_text(UpgradeState::Succeed), "Upgrade succeed");
    assert_eq!(
        UpgradePage::upgrade_state_text(UpgradeState::Waiting),
        "Press \"start\" to start the upgrade"
    );
    assert_eq!(UpgradeState::default(), UpgradeState::Waiting);
}

#[test]
fn upgrade_runs_to_success() {
    let mut page = UpgradePage::new();
    assert!(!page.progress_visible());
    assert!(!page.start());
    page.set_client(true);
    assert!(page.start());
    assert!(!page.is_start_enabled());
    page.upgrade_response(Ok(()));
    assert_eq!(page.get_upgrade_state(), UpgradeState::Running);
    assert!(page.progress_visible());
    page.upgrade_progress(UpgradeProgress::Running(40));
    assert_eq!(page.get_progress(), 40);
    page.upgrade_progress(UpgradeProgress::Success);
    assert_eq!(page.get_upgrade_state(), UpgradeState::Succeed);
    assert_eq!(page.styles(), (false, true));
    page.upgrade_finished();
    assert!(page.is_start_enabled());
}

#[test]
fn upgrade_failure_and_refusal() {
    let mut page = UpgradePage::new();
    page.set_client(true);
    page.start();
    page.upgrade_response(Err("denied".to_string()));
    assert_eq!(page.get_upgrade_state(), UpgradeState::Waiting);
    assert_eq!(page.operation_page().last_error(), Some(("Upgrade failed".to_string(), "denied".to_string(), false)));
    page.upgrade_response(Ok(()));
    page.upgrade_progress(UpgradeProgress::Failure);
    assert_eq!(page.get_upgrade_state(), UpgradeState::Failed);
    assert_eq!(page.styles(), (true, false));
    page.set_upgrade_state(UpgradeState::Running);
    assert_eq!(page.styles(), (false, false));
}

#[test]
fn batch_page_starts_disabled() {
    let page = BatchExecutionPage::new();
    assert_eq!(page.operation_page().title(), "Batch Execution");
    assert!(!page.is_exec_enabled());
    assert!(!page.is_output_enabled());
}

#[test]
fn batch_load_and_run() {
    let mut page = BatchExecutionPage::new();
    page.load_batch(BatchSource::Read { file_name: "b.txt".to_string(), text: "uname\n".to_string() });
    assert_eq!(page.operation_page().subtitle(), "b.txt");
    assert_eq!(page.input_text(), "uname\n");
    assert!(page.is_exec_enabled());
    assert!(!page.is_output_enabled());
    assert_eq!(page.exec_batch(), "uname\n");
    assert!(!page.run_batch());
    page.set_client(true);
    assert!(page.run_batch());
    assert!(page.is_spinning());
    assert!(!page.is_exec_enabled());
    page.batch_finished(BatchOutcome::Report("report".to_string()));
    assert_eq!(page.output_text(), "report");
    assert!(page.is_output_enabled());
    assert!(page.is_exec_enabled());
    assert!(!page.is_spinning());
    assert_eq!(page.copy_output(), "report");
    assert_eq!(page.last_toast(), Some("Batch output copied".to_string()));
}

#[test]
fn batch_errors() {
    let mut page = BatchExecutionPage::new();
    page.load_batch(BatchSource::NoPath);
    assert_eq!(page.operation_page().last_error(), Some(("Failed to load batch".to_string(), "Invalid file".to_string(), true)));
    page.load_batch(BatchSource::NoFileName);
    assert_eq!(page.operation_page().last_error(), Some(("Failed to load batch".to_string(), "Invalid file name".to_string(), true)));
    page.load_batch(BatchSource::Unreadable { file_name: "x.txt".to_string(), error: "denied".to_string() });
    assert_eq!(page.operation_page().subtitle(), "x.txt");
    assert_eq!(page.operation_page().last_error(), Some(("Failed to read file".to_string(), "denied".to_string(), false)));
    page.batch_invalid("bad line");
    assert_eq!(page.operation_page().last_error(), Some(("Invalid batch".to_string(), "bad line".to_string(), false)));
    page.set_client(true);
    page.run_batch();
    page.batch_finished(BatchOutcome::RunFailed("down".to_string()));
    assert_eq!(page.operation_page().last_error(), Some(("Failed to run batch".to_string(), "down".to_string(), false)));
    assert!(page.is_output_enabled());
    page.run_batch();
    page.batch_finished(BatchOutcome::RenderFailed("yaml".to_string()));
    assert_eq!(page.operation_page().last_error(), Some(("Failed to render report".to_string(), "yaml".to_string(), false)));
    assert_eq!(BatchExecutionPage::load_failure_text(&BatchSource::NoPath), Some("Failed to load batch"));
}

#[test]
fn edited_batch_is_the_one_executed() {
    let mut page = BatchExecutionPage::new();
    page.load_batch(BatchSource::Read { file_name: "b.txt".to_string(), text: "a\n".to_string() });
    page.set_input_text("b\n");
    assert_eq!(page.exec_batch(), "b\n");
    assert_eq!(page.output_text(), "");
}

#[test]
fn new_batch_page_has_no_toast_or_error() {
    let page = BatchExecutionPage::new();
    assert_eq!(page.last_toast(), None);
    assert_eq!(page.operation_page().last_error(), None);
    assert_eq!(page.operation_page().subtitle(), "");
}

#[test]
fn upgrade_reports_style_the_progress_bar() {
    let mut page = UpgradePage::new();
    page.set_client(true);
    page.start();
    page.upgrade_response(Ok(()));
    page.upgrade_progress(UpgradeProgress::Failure);
    assert_eq!(page.styles(), (true, false));
    page.upgrade_progress(UpgradeProgress::Running(10));
    assert_eq!(page.styles(), (true, false));
    page.upgrade_progress(UpgradeProgress::Success);
    assert_eq!(page.styles(), (true, true));
    page.upgrade_response(Err("e".to_string()));
    assert_eq!(page.styles(), (true, true));
}

#[test]
fn batch_run_keeps_subtitle_and_title() {
    let mut page = BatchExecutionPage::new();
    page.set_client(true);
    page.load_batch(BatchSource::Read { file_name: "b.txt".to_string(), text: "x".to_string() });
    page.run_batch();
    page.batch_finished(BatchOutcome::RunFailed("down".to_string()));
    assert_eq!(page.operation_page().subtitle(), "b.txt");
    assert_eq!(page.operation_page().title(), "Batch Execution");
}
