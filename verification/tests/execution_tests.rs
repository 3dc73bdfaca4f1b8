use artifex_client_gtk::command::{Command, CommandDirection, CommandStatus};
use artifex_client_gtk::execution::{CommandBar, CommandsRow, CommandsView, ExecuteReply, ExecutionPage};

#[test]
fn command_bar_enables_execute_only_with_text() {
    let mut bar = CommandBar::new();
    assert!(!bar.execute_enabled());
    bar.set_text("ls");
    assert!(bar.execute_enabled());
    assert_eq!(bar.command(), "ls");
    bar.set_text("");
    assert!(!bar.execute_enabled());
}

#[test]
fn scroll_to_last_item() {
    assert_eq!(CommandsView::scroll_to_last(0), None);
    assert_eq!(CommandsView::scroll_to_last(1), Some(0));
    assert_eq!(CommandsView::scroll_to_last(42), Some(41));
}

#[test]
fn toggling_search_bar_twice_restores_it() {
    let mut view = CommandsView::new();
    assert!(!view.search_mode_enabled());
    view.toggle_search_bar();
    assert!(view.search_mode_enabled());
    view.toggle_search_bar();
    assert!(!view.search_mode_enabled());
}

#[test]
fn rows_show_status_pages() {
    assert_eq!(CommandsRow::status_page(CommandStatus::Ko), "status-ko");
    assert_eq!(CommandsRow::status_page(CommandStatus::Okay), "status-ok");
    assert_eq!(CommandsRow::status_page(CommandStatus::Running), "status-running");
}

#[test]
fn rows_follow_the_command_they_are_bound_to() {
    let mut row = CommandsRow::new();
    assert!(row.command().is_none());
    let mut c1 = Command::new("a", "t1".to_string());
    let c2 = Command::new("b", "t2".to_string());
    row.set_command(Some(&c1));
    assert_eq!(row.text(), "a");
    assert_eq!(row.timestamp(), "t1");
    assert_eq!(row.status_page_shown(), "status-running");
    row.set_command(Some(&c2));
    assert_eq!(row.command().unwrap().text, "b");
    c1.set_text("z");
    assert_eq!(row.text(), "b");
    row.set_status(CommandStatus::Okay);
    assert_eq!(row.status_page_shown(), "status-ok");
    assert_eq!(row.command().unwrap().status, CommandStatus::Okay);
    row.set_command(None);
    assert!(row.command().is_none());
    assert_eq!(row.text(), "b");
    row.command_changed(&c1);
    assert_eq!(row.text(), "b");
    row.set_command(Some(&c1));
    assert_eq!(row.text(), "z");
    c1.set_status(CommandStatus::Ko);
    row.command_changed(&c1);
    assert_eq!(row.status(), CommandStatus::Ko);
    assert_eq!(row.status_page_shown(), "status-ko");
}

#[test]
fn successful_command_is_followed_by_its_output() {
    let mut page = ExecutionPage::new();
    page.set_client(true);
    page.set_command_text("echo hi");
    let request = page.start_command("10/10/2025 10:10:10".to_string());
    assert_eq!(request, Some("echo hi".to_string()));
    assert!(!page.command_bar().accepts_input());
    assert_eq!(page.n_items(), 1);
    assert_eq!(page.item(0).unwrap().status, CommandStatus::Running);
    page.finish_command(Some(ExecuteReply { stdout: "hi\n".to_string(), code: 0 }), "10/10/2025 10:10:11".to_string());
    assert!(page.command_bar().accepts_input());
    assert_eq!(page.n_items(), 2);
    let input = page.item(0).unwrap();
    assert_eq!(input.direction, CommandDirection::Input);
    assert_eq!(input.status, CommandStatus::Okay);
    assert_eq!(input.text, "echo hi");
    assert_eq!(input.timestamp, "10/10/2025 10:10:10");
    let output = page.item(1).unwrap();
    assert_eq!(output.timestamp, "10/10/2025 10:10:11");
    assert_eq!(output.direction, CommandDirection::Output);
    assert_eq!(output.status, CommandStatus::Okay);
    assert_eq!(output.text, "hi\n");
    assert!(page.item(2).is_none());
}

#[test]
fn failing_exit_code_marks_output_ko() {
    let mut page = ExecutionPage::new();
    page.set_client(true);
    page.set_command_text("false");
    page.start_command("10/10/2025 10:10:10".to_string());
    page.finish_command(Some(ExecuteReply { stdout: "".to_string(), code: 1 }), "10/10/2025 10:10:11".to_string());
    assert_eq!(page.item(0).unwrap().status, CommandStatus::Okay);
    assert_eq!(page.item(1).unwrap().status, CommandStatus::Ko);
}

#[test]
fn failed_request_marks_input_ko() {
    let mut page = ExecutionPage::new();
    page.set_client(true);
    page.set_command_text("ls");
    page.start_command("10/10/2025 10:10:10".to_string());
    page.finish_command(None, "10/10/2025 10:10:11".to_string());
    assert_eq!(page.n_items(), 1);
    assert_eq!(page.item(0).unwrap().status, CommandStatus::Ko);
}

#[test]
fn clearing_and_setting_status_on_empty_list() {
    let mut page = ExecutionPage::new();
    page.set_client(true);
    page.set_current_command_input_status(CommandStatus::Ko);
    assert_eq!(page.n_items(), 0);
    page.set_command_text("ls");
    page.start_command("10/10/2025 10:10:10".to_string());
    page.clear_commands();
    assert_eq!(page.n_items(), 0);
    page.finish_command(None, "10/10/2025 10:10:11".to_string());
    assert_eq!(page.n_items(), 0);
}

#[test]
fn nothing_is_executed_without_a_client() {
    let mut page = ExecutionPage::new();
    assert_eq!(page.operation_page().title(), "Execution");
    page.set_command_text("ls");
    assert_eq!(page.start_command("t".to_string()), None);
    assert_eq!(page.n_items(), 0);
    assert!(page.command_bar().accepts_input());
}

#[test]
fn new_execution_page_is_clean() {
    let page = ExecutionPage::new();
    assert_eq!(page.command_bar().popover(), None);
    assert!(!page.commands_view().search_mode_enabled());
    assert_eq!(page.operation_page().last_error(), None);
    assert!(page.operation_page().is_sensitive());
}
