//! Commands typed by the user and their output, as the execution page lists
//! them.

use vstd::prelude::*;

verus! {

/// Whether a command was sent to the server or came back from it.
#[derive(Clone, Copy, Debug, PartialEq, Eq, Structural)]
pub enum CommandDirection {
    Input,
    Output,
}

impl CommandDirection {
    /// The name under which the direction is displayed.
    pub open spec fn name(self) -> Seq<char> {
        match self {
            CommandDirection::Input => "input"@,
            CommandDirection::Output => "output"@,
        }
    }

    /// The displayed name of the direction.
    pub fn as_str(&self) -> (name: &'static str)
        ensures
            name@ == self.name(),
    {
        match self {
            CommandDirection::Input => "input",
            CommandDirection::Output => "output",
        }
    }

    /// The displayed name of the direction, as an owned string.
    pub fn to_string(&self) -> (name: String)
        ensures
            name@ == self.name(),
    {
        self.as_str().to_owned()
    }
}

impl Default for CommandDirection {
    fn default() -> (direction: Self)
        ensures
            direction == CommandDirection::Input,
    {
        CommandDirection::Input
    }
}

/// How the execution of a command went.
#[derive(Clone, Copy, Debug, PartialEq, Eq, Structural)]
pub enum CommandStatus {
    Ko,
    Okay,
    Running,
}

impl CommandStatus {
    /// The name under which the status is displayed.
    pub open spec fn name(self) -> Seq<char> {
        match self {
            CommandStatus::Ko => "ko"@,
            CommandStatus::Okay => "ok"@,
            CommandStatus::Running => "running"@,
        }
    }

    /// The displayed name of the status.
    pub fn as_str(&self) -> (name: &'static str)
        ensures
            name@ == self.name(),
    {
        match self {
            CommandStatus::Ko => "ko",
            CommandStatus::Okay => "ok",
            CommandStatus::Running => "running",
        }
    }

    /// The displayed name of the status, as an owned string.
    pub fn to_string(&self) -> (name: String)
        ensures
            name@ == self.name(),
    {
        self.as_str().to_owned()
    }
}

impl Default for CommandStatus {
    fn default() -> (status: Self)
        ensures
            status == CommandStatus::Running,
    {
        CommandStatus::Running
    }
}

/// The data of one entry of the command list.
#[derive(Debug)]
pub struct CommandData {
    pub direction: CommandDirection,
    pub timestamp: String,
    pub status: CommandStatus,
    pub text: String,
}

/// What an entry of the command list holds, as plain values.
pub struct CommandModel {
    pub direction: CommandDirection,
    pub timestamp: Seq<char>,
    pub status: CommandStatus,
    pub text: Seq<char>,
}

impl View for CommandData {
    type V = CommandModel;

    open spec fn view(&self) -> CommandModel {
        CommandModel {
            direction: self.direction,
            timestamp: self.timestamp@,
            status: self.status,
            text: self.text@,
        }
    }
}

impl Default for CommandData {
    fn default() -> (data: Self)
        ensures
            data@ == (CommandModel {
                direction: CommandDirection::Input,
                timestamp: Seq::<char>::empty(),
                status: CommandStatus::Running,
                text: Seq::<char>::empty(),
            }),
    {
        CommandData {
            direction: CommandDirection::Input,
            timestamp: String::new(),
            status: CommandStatus::Running,
            text: String::new(),
        }
    }
}

/// One entry of the command list.
pub struct Command {
    pub data: CommandData,
}

impl View for Command {
    type V = CommandModel;

    open spec fn view(&self) -> CommandModel {
        self.data@
    }
}

impl Command {
    /// A new input command with the given text and time stamp; its status is
    /// `Running`.
    pub fn new(text: &str, timestamp: String) -> (command: Command)
        ensures
            command@ == (CommandModel {
                direction: CommandDirection::Input,
                timestamp: timestamp@,
                status: CommandStatus::Running,
                text: text@,
            }),
    {
        Command {
            data: CommandData {
                direction: CommandDirection::Input,
                timestamp,
                status: CommandStatus::Running,
                text: text.to_owned(),
            },
        }
    }

    /// The direction of the command.
    pub fn direction(&self) -> (direction: CommandDirection)
        ensures
            direction == self@.direction,
    {
        self.data.direction
    }

    /// The status of the command.
    pub fn status(&self) -> (status: CommandStatus)
        ensures
            status == self@.status,
    {
        self.data.status
    }

    /// The time stamp of the command.
    pub fn timestamp(&self) -> (timestamp: String)
        ensures
            timestamp@ == self@.timestamp,
    {
        self.data.timestamp.clone()
    }

    /// The text of the command.
    pub fn text(&self) -> (text: String)
        ensures
            text@ == self@.text,
    {
        self.data.text.clone()
    }

    /// Changes the direction of the command and nothing else.
    pub fn set_direction(&mut self, direction: CommandDirection)
        ensures
            final(self)@ == (CommandModel { direction, ..old(self)@ }),
    {
        self.data.direction = direction;
    }

    /// Changes the text of the command and nothing else.
    pub fn set_text(&mut self, text: &str)
        ensures
            final(self)@ == (CommandModel { text: text@, ..old(self)@ }),
    {
        self.data.text = text.to_owned();
    }

    /// Changes the time stamp of the command and nothing else.
    pub fn set_timestamp(&mut self, timestamp: &str)
        ensures
            final(self)@ == (CommandModel { timestamp: timestamp@, ..old(self)@ }),
    {
        self.data.timestamp = timestamp.to_owned();
    }

    /// Changes the status of the command and nothing else.
    pub fn set_status(&mut self, status: CommandStatus)
        ensures
            final(self)@ == (CommandModel { status, ..old(self)@ }),
    {
        self.data.status = status;
    }
}

impl From<CommandData> for Command {
    fn from(value: CommandData) -> (command: Command) {
        Command { data: value }
    }
}

impl vstd::std_specs::convert::FromSpecImpl<CommandData> for Command {
    open spec fn obeys_from_spec() -> bool {
        true
    }

    open spec fn from_spec(v: CommandData) -> Command {
        Command { data: v }
    }
}

} // verus!
