use artifex_client_gtk::command::{Command, CommandData, CommandDirection, CommandStatus};

#[test]
fn status_and_direction_names() {
    assert_eq!(CommandStatus::Ko.as_str(), "ko");
    assert_eq!(CommandStatus::Okay.to_string(), "ok");
    assert_eq!(CommandStatus::Running.as_str(), "running");
    assert_eq!(CommandDirection::Input.as_str(), "input");
    assert_eq!(CommandDirection::Output.to_string(), "output");
}

#[test]
fn defaults() {
    assert_eq!(CommandStatus::default(), CommandStatus::Running);
    assert_eq!(CommandDirection::default(), CommandDirection::Input);
    let data = CommandData::default();
    assert_eq!(data.direction, CommandDirection::Input);
    assert_eq!(data.status, CommandStatus::Running);
    assert_eq!(data.text, "");
    assert_eq!(data.timestamp, "");
}

#[test]
fn new_command_is_a_running_input() {
    let mut c = Command::new("ls", "01/02/2025 03:04:05".to_string());
    assert_eq!(c.text(), "ls");
    assert_eq!(c.direction(), CommandDirection::Input);
    assert_eq!(c.status(), CommandStatus::Running);
    assert_eq!(c.timestamp(), "01/02/2025 03:04:05");
    c.set_status(CommandStatus::Ko);
    c.set_direction(CommandDirection::Output);
    c.set_text("z");
    c.set_timestamp("t");
    assert_eq!(c.status(), CommandStatus::Ko);
    assert_eq!(c.direction(), CommandDirection::Output);
    assert_eq!(c.text(), "z");
    assert_eq!(c.timestamp(), "t");
}

#[test]
fn command_from_data() {
    let data = CommandData {
        direction: CommandDirection::Output,
        timestamp: "t".to_string(),
        status: CommandStatus::Okay,
        text: "out".to_string(),
    };
    let c = Command::from(data);
    assert_eq!(c.direction(), CommandDirection::Output);
    assert_eq!(c.status(), CommandStatus::Okay);
    assert_eq!(c.timestamp(), "t");
    assert_eq!(c.text(), "out");
}
