//! The execution page: a command bar, the list of commands sent and of the
//! output that came back, and the rules that tie them together.

use vstd::prelude::*;
use crate::command::{Command, CommandData, CommandDirection, CommandModel, CommandStatus};
use crate::widgets::OperationPage;

verus! {

/// The entry in which a command is typed, with its button and popover.
pub struct CommandBar {
    text: String,
    sensitive: bool,
    popover: Option<String>,
}

impl CommandBar {
    /// The text of the entry.
    pub closed spec fn entry_text(&self) -> Seq<char> {
        self.text@
    }

    /// Whether the bar accepts input.
    pub closed spec fn is_sensitive(&self) -> bool {
        self.sensitive
    }

    /// The message of the popover, when it is shown.
    pub closed spec fn popover_message(&self) -> Option<Seq<char>> {
        match self.popover {
            Some(m) => Some(m@),
            None => None,
        }
    }

    /// An empty, sensitive bar with no popover.
    pub fn new() -> (bar: CommandBar)
        ensures
            bar.entry_text() == Seq::<char>::empty(),
            bar.is_sensitive(),
            bar.popover_message() is None,
    {
        CommandBar { text: String::new(), sensitive: true, popover: None }
    }

    /// Replaces the text of the entry.
    pub fn set_text(&mut self, text: &str)
        ensures
            final(self).entry_text() == text@,
            final(self).is_sensitive() == old(self).is_sensitive(),
            final(self).popover_message() == old(self).popover_message(),
    {
        self.text = text.to_owned();
    }

    /// Makes the bar accept input or not.
    pub fn set_sensitive(&mut self, sensitive: bool)
        ensures
            final(self).is_sensitive() == sensitive,
            final(self).entry_text() == old(self).entry_text(),
            final(self).popover_message() == old(self).popover_message(),
    {
        self.sensitive = sensitive;
    }

    /// Whether the bar accepts input.
    pub fn accepts_input(&self) -> (sensitive: bool)
        ensures
            sensitive == self.is_sensitive(),
    {
        self.sensitive
    }

    /// The message of the popover, when it is shown.
    pub fn popover(&self) -> (message: Option<String>)
        ensures
            match message {
                Some(m) => self.popover_message() == Some(m@),
                None => self.popover_message() is None,
            },
    {
        match &self.popover {
            Some(m) => Some(m.clone()),
            None => None,
        }
    }

    /// Whether the execute button can be pressed: only when there is text to
    /// execute.
    pub fn execute_enabled(&self) -> (enabled: bool)
        ensures
            enabled == (self.entry_text().len() > 0),
    {
        !self.text.as_str().is_empty()
    }

    /// Shows the popover with `message`.
    pub fn show_popover(&mut self, message: &str)
        ensures
            final(self).popover_message() == Some(message@),
            final(self).entry_text() == old(self).entry_text(),
            final(self).is_sensitive() == old(self).is_sensitive(),
    {
        self.popover = Some(message.to_owned());
    }

    /// The command to execute: the text of the entry.
    pub fn command(&self) -> (command: String)
        ensures
            command@ == self.entry_text(),
    {
        self.text.clone()
    }
}

/// The list view of the commands, with its search bar.
pub struct CommandsView {
    search_mode: bool,
}

impl CommandsView {
    /// Whether the search bar is shown.
    pub closed spec fn search_mode(&self) -> bool {
        self.search_mode
    }

    /// A view with the search bar hidden.
    pub fn new() -> (view: CommandsView)
        ensures
            !view.search_mode(),
    {
        CommandsView { search_mode: false }
    }

    /// Whether the search bar is shown.
    pub fn search_mode_enabled(&self) -> (shown: bool)
        ensures
            shown == self.search_mode(),
    {
        self.search_mode
    }

    /// Shows the search bar if it is hidden, hides it if it is shown.
    pub fn toggle_search_bar(&mut self)
        ensures
            final(self).search_mode() == !old(self).search_mode(),
    {
        self.search_mode = !self.search_mode;
    }

    /// The position to scroll to so that the last of `n_items` items shows:
    /// none when the list is empty.
    pub fn scroll_to_last(n_items: u32) -> (position: Option<u32>)
        ensures
            n_items == 0 ==> position is None,
            n_items > 0 ==> position == Some((n_items - 1) as u32),
    {
        if n_items > 0 {
            Some(n_items - 1)
        } else {
            None
        }
    }
}

/// The page of the status stack that shows `status` in a row.
pub open spec fn status_page_name(status: CommandStatus) -> Seq<char> {
    "status-"@ + status.name()
}

/// Whether two commands hold the same values.
fn same_command(a: &CommandData, b: &Command) -> (same: bool)
    ensures
        same == (a@ == b@),
{
    a.direction == b.data.direction && a.status == b.data.status && a.timestamp == b.data.timestamp
        && a.text == b.data.text
}

/// A copy of the values of `command`.
fn command_data(command: &Command) -> (data: CommandData)
    ensures
        data@ == command@,
{
    CommandData {
        direction: command.data.direction,
        timestamp: command.data.timestamp.clone(),
        status: command.data.status,
        text: command.data.text.clone(),
    }
}

/// One row of the command list: the command it is bound to, if any, and
/// the time stamp, text and status it shows.
pub struct CommandsRow {
    command: Option<CommandData>,
    timestamp: String,
    text: String,
    status: CommandStatus,
    status_page: &'static str,
}

impl CommandsRow {
    /// The status stack shows the page of the status, and a row bound to a
    /// command shows that command's time stamp, text and status.
    #[verifier::type_invariant]
    closed spec fn wf(self) -> bool {
        &&& self.status_page@ == status_page_name(self.status)
        &&& self.command matches Some(c) ==> {
            &&& c.timestamp@ == self.timestamp@
            &&& c.text@ == self.text@
            &&& c.status == self.status
        }
    }

    /// The command the row is bound to, if any.
    pub closed spec fn bound_command(&self) -> Option<CommandModel> {
        match self.command {
            Some(c) => Some(c@),
            None => None,
        }
    }

    /// The time stamp the row shows.
    pub closed spec fn timestamp_label(&self) -> Seq<char> {
        self.timestamp@
    }

    /// The text the row shows.
    pub closed spec fn text_label(&self) -> Seq<char> {
        self.text@
    }

    /// The status of the row.
    pub closed spec fn row_status(&self) -> CommandStatus {
        self.status
    }

    /// The page of the status stack the row shows.
    pub closed spec fn visible_status_page(&self) -> Seq<char> {
        self.status_page@
    }

    /// The row shows the page of its status, and, when it is bound to a
    /// command, that command's time stamp, text and status.
    pub open spec fn shows_bound(&self) -> bool {
        &&& self.visible_status_page() == status_page_name(self.row_status())
        &&& self.bound_command() matches Some(c) ==> {
            &&& self.timestamp_label() == c.timestamp
            &&& self.text_label() == c.text
            &&& self.row_status() == c.status
        }
    }

    /// The name of the page of the status stack that shows `status`.
    pub fn status_page(status: CommandStatus) -> (name: &'static str)
        ensures
            name@ == status_page_name(status),
    {
        proof {
            reveal_strlit("status-");
            reveal_strlit("status-ko");
            reveal_strlit("status-ok");
            reveal_strlit("status-running");
            reveal_strlit("ko");
            reveal_strlit("ok");
            reveal_strlit("running");
        }
        match status {
            CommandStatus::Ko => {
                assert("status-ko"@ =~= "status-"@ + "ko"@);
                "status-ko"
            },
            CommandStatus::Okay => {
                assert("status-ok"@ =~= "status-"@ + "ok"@);
                "status-ok"
            },
            CommandStatus::Running => {
                assert("status-running"@ =~= "status-"@ + "running"@);
                "status-running"
            },
        }
    }

    /// An empty row, bound to no command, whose status is `Running`.
    pub fn new() -> (row: CommandsRow)
        ensures
            row.shows_bound(),
            row.bound_command() is None,
            row.timestamp_label() == Seq::<char>::empty(),
            row.text_label() == Seq::<char>::empty(),
            row.row_status() == CommandStatus::Running,
    {
        CommandsRow {
            command: None,
            timestamp: String::new(),
            text: String::new(),
            status: CommandStatus::Running,
            status_page: Self::status_page(CommandStatus::Running),
        }
    }

    /// The row shows the page of its status, and the values of the command
    /// it is bound to.
    pub fn confirm_shows_bound(&self)
        ensures
            self.shows_bound(),
    {
        proof {
            use_type_invariant(self);
        }
    }

    /// Shows `status` in the status stack. The status of a bound command
    /// follows, as the binding goes both ways.
    pub fn set_status(&mut self, status: CommandStatus)
        ensures
            final(self).shows_bound(),
            final(self).row_status() == status,
            final(self).visible_status_page() == status_page_name(status),
            final(self).timestamp_label() == old(self).timestamp_label(),
            final(self).text_label() == old(self).text_label(),
            final(self).bound_command() == (match old(self).bound_command() {
                Some(c) => Some(CommandModel { status, ..c }),
                None => None,
            }),
    {
        proof {
            use_type_invariant(&*self);
        }
        let command = match &self.command {
            Some(c) => Some(CommandData {
                direction: c.direction,
                timestamp: c.timestamp.clone(),
                status,
                text: c.text.clone(),
            }),
            None => None,
        };
        *self = CommandsRow {
            command,
            timestamp: self.timestamp.clone(),
            text: self.text.clone(),
            status,
            status_page: Self::status_page(status),
        };
    }

    /// Binds the row to `command`, or unbinds it. Binding it again to the
    /// command it shows, or unbinding an unbound row, changes nothing. A row
    /// bound to another command shows that command's time stamp, text and
    /// status; an unbound row keeps what it shows.
    pub fn set_command(&mut self, command: Option<&Command>)
        ensures
            final(self).shows_bound(),
            match command {
                Some(c) => {
                    &&& final(self).bound_command() == Some(c@)
                    &&& final(self).timestamp_label() == c@.timestamp
                    &&& final(self).text_label() == c@.text
                    &&& final(self).row_status() == c@.status
                    &&& old(self).bound_command() == Some(c@) ==> *final(self) == *old(self)
                },
                None => {
                    &&& final(self).bound_command() is None
                    &&& final(self).timestamp_label() == old(self).timestamp_label()
                    &&& final(self).text_label() == old(self).text_label()
                    &&& final(self).row_status() == old(self).row_status()
                    &&& final(self).visible_status_page() == old(self).visible_status_page()
                    &&& old(self).bound_command() is None ==> *final(self) == *old(self)
                },
            },
    {
        proof {
            use_type_invariant(&*self);
        }
        match command {
            Some(c) => {
                let same = match &self.command {
                    Some(bound) => same_command(bound, c),
                    None => false,
                };
                if same {
                    return;
                }
                *self = CommandsRow {
                    command: Some(command_data(c)),
                    timestamp: c.timestamp(),
                    text: c.text(),
                    status: c.status(),
                    status_page: Self::status_page(c.status()),
                };
            },
            None => {
                if self.command.is_none() {
                    return;
                }
                *self = CommandsRow {
                    command: None,
                    timestamp: self.timestamp.clone(),
                    text: self.text.clone(),
                    status: self.status,
                    status_page: self.status_page,
                };
            },
        }
    }

    /// Takes in the values of the command the row is bound to after they
    /// changed: a bound row shows them, an unbound row is left as it is.
    pub fn command_changed(&mut self, command: &Command)
        ensures
            final(self).shows_bound(),
            old(self).bound_command() is Some ==> {
                &&& final(self).bound_command() == Some(command@)
                &&& final(self).timestamp_label() == command@.timestamp
                &&& final(self).text_label() == command@.text
                &&& final(self).row_status() == command@.status
            },
            old(self).bound_command() is None ==> *final(self) == *old(self),
    {
        proof {
            use_type_invariant(&*self);
        }
        if self.command.is_some() {
            *self = CommandsRow {
                command: Some(command_data(command)),
                timestamp: command.timestamp(),
                text: command.text(),
                status: command.status(),
                status_page: Self::status_page(command.status()),
            };
        }
    }

    /// The command the row is bound to, if any.
    pub fn command(&self) -> (command: Option<CommandData>)
        ensures
            match command {
                Some(c) => self.bound_command() == Some(c@),
                None => self.bound_command() is None,
            },
    {
        match &self.command {
            Some(c) => Some(CommandData {
                direction: c.direction,
                timestamp: c.timestamp.clone(),
                status: c.status,
                text: c.text.clone(),
            }),
            None => None,
        }
    }

    /// The time stamp the row shows.
    pub fn timestamp(&self) -> (timestamp: String)
        ensures
            timestamp@ == self.timestamp_label(),
    {
        self.timestamp.clone()
    }

    /// The text the row shows.
    pub fn text(&self) -> (text: String)
        ensures
            text@ == self.text_label(),
    {
        self.text.clone()
    }

    /// The status of the row: the one it was last given, which the row keeps
    /// on purpose so that its status property reads back what was set, where
    /// a setter that only switched the status page would leave the getter
    /// always answering the default status.
    pub fn status(&self) -> (status: CommandStatus)
        ensures
            status == self.row_status(),
    {
        self.status
    }

    /// The page of the status stack the row shows.
    pub fn status_page_shown(&self) -> (name: &'static str)
        ensures
            name@ == self.visible_status_page(),
    {
        self.status_page
    }
}

/// What the server answers to a command: its standard output and its exit
/// code.
pub struct ExecuteReply {
    pub stdout: String,
    pub code: i32,
}

/// The plain values of an answer, when there is one.
pub open spec fn reply_view(reply: Option<ExecuteReply>) -> Option<(Seq<char>, i32)> {
    match reply {
        Some(r) => Some((r.stdout@, r.code)),
        None => None,
    }
}

/// The status that a command gets from its exit code.
pub open spec fn exit_status(code: i32) -> CommandStatus {
    if code == 0 {
        CommandStatus::Okay
    } else {
        CommandStatus::Ko
    }
}

/// An output is shown as a success exactly when its exit code is 0: every
/// other code, whatever it is, shows a failure.
pub proof fn lemma_exit_status_success_iff_zero(code: i32)
    ensures
        exit_status(code) == CommandStatus::Okay <==> code == 0,
        exit_status(code) == CommandStatus::Ko <==> code != 0,
        exit_status(code) != CommandStatus::Running,
{
}

/// No command of `commands` is still running.
pub open spec fn none_running(commands: Seq<CommandModel>) -> bool {
    forall|i: int| 0 <= i < commands.len() ==> #[trigger] commands[i].status != CommandStatus::Running
}

/// `commands` with the status of its last command replaced by `status`;
/// unchanged when there is no command.
pub open spec fn with_last_status(commands: Seq<CommandModel>, status: CommandStatus) -> Seq<CommandModel> {
    if commands.len() == 0 {
        commands
    } else {
        commands.update(commands.len() - 1, CommandModel { status, ..commands.last() })
    }
}

/// Setting the status of the current command changes the last entry of the
/// list, and only its status: the list keeps its length and every earlier
/// entry as it was.
pub proof fn lemma_last_status_changes_only_the_last(commands: Seq<CommandModel>, status: CommandStatus)
    ensures
        with_last_status(commands, status).len() == commands.len(),
        forall|i: int|
            0 <= i < commands.len() - 1 ==> #[trigger] with_last_status(commands, status)[i] == commands[i],
        commands.len() > 0 ==> with_last_status(commands, status).last().status == status,
        commands.len() > 0 ==> with_last_status(commands, status).last().direction == commands.last().direction,
        commands.len() > 0 ==> with_last_status(commands, status).last().text == commands.last().text,
        commands.len() > 0 ==> with_last_status(commands, status).last().timestamp == commands.last().timestamp,
{
}

/// The list after the reply to the last command came back: the command is
/// marked as done, and on success the output follows it.
pub open spec fn answered(
    commands: Seq<CommandModel>,
    reply: Option<(Seq<char>, i32)>,
    output_stamp: Seq<char>,
) -> Seq<CommandModel> {
    match reply {
        Some((stdout, code)) => with_last_status(commands, CommandStatus::Okay).push(
            CommandModel {
                direction: CommandDirection::Output,
                timestamp: output_stamp,
                status: exit_status(code),
                text: stdout,
            },
        ),
        None => with_last_status(commands, CommandStatus::Ko),
    }
}

/// The execution page.
pub struct ExecutionPage {
    page: OperationPage,
    commands: Vec<Command>,
    busy: bool,
    command_bar: CommandBar,
    commands_view: CommandsView,
}

impl ExecutionPage {
    /// The commands listed, oldest first.
    pub closed spec fn command_list(&self) -> Seq<CommandModel> {
        self.commands@.map_values(|c: Command| c@)
    }

    /// Whether a command is being executed.
    pub closed spec fn is_busy(&self) -> bool {
        self.busy
    }

    /// The frame of the page.
    pub closed spec fn frame(&self) -> OperationPage {
        self.page
    }

    /// The command bar of the page.
    pub closed spec fn bar(&self) -> CommandBar {
        self.command_bar
    }

    /// The list view of the page.
    pub closed spec fn list_view(&self) -> CommandsView {
        self.commands_view
    }

    /// The page is idle and every command listed has finished.
    pub open spec fn idle(&self) -> bool {
        &&& !self.is_busy()
        &&& none_running(self.command_list())
    }

    /// The page is busy with the last command listed, which was typed in
    /// and is still running, and every other command has finished.
    pub open spec fn waiting(&self) -> bool {
        let commands = self.command_list();
        &&& self.is_busy()
        &&& commands.len() > 0
        &&& commands.last().direction == CommandDirection::Input
        &&& commands.last().status == CommandStatus::Running
        &&& none_running(commands.drop_last())
    }

    /// An idle page with no command and no client. Its title is the
    /// message "Execution", translated where it is shown.
    pub fn new() -> (page: ExecutionPage)
        ensures
            page.idle(),
            page.frame().page_title() == "Execution"@,
            !page.frame().client_set(),
            page.command_list() == Seq::<CommandModel>::empty(),
            page.bar().is_sensitive(),
            page.bar().entry_text() == Seq::<char>::empty(),
            page.bar().popover_message() is None,
            !page.list_view().search_mode(),
            page.frame().content_sensitive(),
            !page.frame().holds_child(),
            page.frame().page_subtitle() == Seq::<char>::empty(),
            page.frame().reported_error() is None,
    {
        let mut frame = OperationPage::new();
        frame.set_title("Execution");
        let page = ExecutionPage {
            page: frame,
            commands: Vec::new(),
            busy: false,
            command_bar: CommandBar::new(),
            commands_view: CommandsView::new(),
        };
        assert(page.command_list() =~= Seq::<CommandModel>::empty());
        page
    }

    /// The frame of the page.
    pub fn operation_page(&self) -> (frame: &OperationPage)
        ensures
            *frame == self.frame(),
    {
        &self.page
    }

    /// Gives the page a client to talk to, or takes it away.
    pub fn set_client(&mut self, available: bool)
        ensures
            final(self).frame().client_set() == available,
            final(self).command_list() == old(self).command_list(),
            final(self).is_busy() == old(self).is_busy(),
            final(self).bar() == old(self).bar(),
            final(self).list_view() == old(self).list_view(),
    {
        self.page.set_client(available);
    }

    /// The command bar of the page.
    pub fn command_bar(&self) -> (bar: &CommandBar)
        ensures
            *bar == self.bar(),
    {
        &self.command_bar
    }

    /// The list view of the page.
    pub fn commands_view(&self) -> (view: &CommandsView)
        ensures
            *view == self.list_view(),
    {
        &self.commands_view
    }

    /// Replaces the text typed in the command bar.
    pub fn set_command_text(&mut self, text: &str)
        ensures
            final(self).bar().entry_text() == text@,
            final(self).bar().is_sensitive() == old(self).bar().is_sensitive(),
            final(self).bar().popover_message() == old(self).bar().popover_message(),
            final(self).command_list() == old(self).command_list(),
            final(self).is_busy() == old(self).is_busy(),
            final(self).list_view() == old(self).list_view(),
    {
        self.command_bar.set_text(text);
    }

    /// Shows or hides the search bar of the list.
    pub fn toggle_search_bar(&mut self)
        ensures
            final(self).list_view().search_mode() == !old(self).list_view().search_mode(),
            final(self).bar() == old(self).bar(),
            final(self).command_list() == old(self).command_list(),
            final(self).is_busy() == old(self).is_busy(),
    {
        self.commands_view.toggle_search_bar();
    }

    /// The number of commands listed.
    pub fn n_items(&self) -> (n: usize)
        ensures
            n == self.command_list().len(),
    {
        self.commands.len()
    }

    /// The data of the command at `position`, oldest first.
    pub fn item(&self, position: usize) -> (data: Option<CommandData>)
        ensures
            position < self.command_list().len() ==> (data matches Some(d) && d@ == self.command_list()[position as int]),
            position >= self.command_list().len() ==> data is None,
    {
        if position < self.commands.len() {
            let c = &self.commands[position];
            Some(CommandData {
                direction: c.direction(),
                timestamp: c.timestamp(),
                status: c.status(),
                text: c.text(),
            })
        } else {
            None
        }
    }

    /// Marks the page as busy or not: the command bar accepts input only
    /// when the page is not busy.
    pub fn set_busy(&mut self, busy: bool)
        ensures
            final(self).is_busy() == busy,
            final(self).bar().is_sensitive() == !busy,
            final(self).bar().entry_text() == old(self).bar().entry_text(),
            final(self).bar().popover_message() == old(self).bar().popover_message(),
            final(self).command_list() == old(self).command_list(),
            final(self).list_view() == old(self).list_view(),
            final(self).frame() == old(self).frame(),
    {
        self.busy = busy;
        self.command_bar.set_sensitive(!busy);
    }

    /// Gives the last command listed the status `status`; with no command
    /// listed, nothing changes.
    pub fn set_current_command_input_status(&mut self, status: CommandStatus)
        ensures
            final(self).command_list() == with_last_status(old(self).command_list(), status),
            final(self).command_list().len() == old(self).command_list().len(),
            forall|i: int|
                0 <= i < old(self).command_list().len() - 1 ==> #[trigger] final(self).command_list()[i]
                    == old(self).command_list()[i],
            old(self).command_list().len() > 0 ==> final(self).command_list().last() == (CommandModel {
                status,
                ..old(self).command_list().last()
            }),
            final(self).is_busy() == old(self).is_busy(),
            final(self).bar() == old(self).bar(),
            final(self).list_view() == old(self).list_view(),
            final(self).frame() == old(self).frame(),
    {
        let n = self.commands.len();
        if n > 0 {
            let ghost before = self.commands@;
            let mut last = self.commands.pop().unwrap();
            last.set_status(status);
            self.commands.push(last);
            assert(self.commands@ =~= before.update(n - 1, self.commands@[n - 1]));
            assert(self.command_list() =~= with_last_status(before.map_values(|c: Command| c@), status));
        }
    }

    /// Empties the command list.
    pub fn clear_commands(&mut self)
        ensures
            final(self).command_list() == Seq::<CommandModel>::empty(),
            final(self).is_busy() == old(self).is_busy(),
            final(self).bar() == old(self).bar(),
            final(self).list_view() == old(self).list_view(),
    {
        self.commands = Vec::new();
        assert(self.command_list() =~= Seq::<CommandModel>::empty());
    }

    /// Starts executing the command typed in the bar. Without a client
    /// nothing happens and nothing comes back. With one, the page becomes
    /// busy, the command is listed as a running input stamped with
    /// `timestamp`, and its text, which is to be sent to the server, is
    /// returned.
    pub fn start_command(&mut self, timestamp: String) -> (request: Option<String>)
        ensures
            request is None <==> !old(self).frame().client_set(),
            request is None ==> *final(self) == *old(self),
            request matches Some(text) ==> {
                &&& text@ == old(self).bar().entry_text()
                &&& final(self).is_busy()
                &&& !final(self).bar().is_sensitive()
                &&& final(self).bar().entry_text() == old(self).bar().entry_text()
                &&& final(self).command_list().len() == old(self).command_list().len() + 1
                &&& final(self).command_list().drop_last() == old(self).command_list()
                &&& final(self).command_list().last() == (CommandModel {
                    direction: CommandDirection::Input,
                    timestamp: timestamp@,
                    status: CommandStatus::Running,
                    text: text@,
                })
                &&& old(self).idle() ==> final(self).waiting()
            },
            final(self).list_view() == old(self).list_view(),
            final(self).bar().popover_message() == old(self).bar().popover_message(),
            final(self).frame() == old(self).frame(),
    {
        if !self.page.has_client() {
            return None;
        }
        self.set_busy(true);
        let text = self.command_bar.command();
        let input = Command::new(text.as_str(), timestamp);
        let ghost before = self.commands@;
        self.commands.push(input);
        assert(self.commands@.drop_last() =~= before);
        assert(self.command_list().drop_last() =~= before.map_values(|c: Command| c@));
        Some(text)
    }

    /// Takes in the answer to the command being executed (`None` when the
    /// request failed): the command is marked as done, `Okay` when an
    /// answer came and `Ko` when none did; the output follows it, with the
    /// status that its exit code gives and stamped with `timestamp`; and the
    /// page is no longer busy.
    pub fn finish_command(&mut self, reply: Option<ExecuteReply>, timestamp: String)
        ensures
            !final(self).is_busy(),
            final(self).bar().is_sensitive(),
            final(self).bar().entry_text() == old(self).bar().entry_text(),
            final(self).command_list() == answered(
                old(self).command_list(),
                reply_view(reply),
                timestamp@,
            ),
            old(self).waiting() ==> final(self).idle(),
            forall|i: int|
                0 <= i < old(self).command_list().len() - 1 ==> #[trigger] final(self).command_list()[i]
                    == old(self).command_list()[i],
            reply matches Some(r) ==> {
                &&& final(self).command_list().len() == old(self).command_list().len() + 1
                &&& final(self).command_list().last().direction == CommandDirection::Output
                &&& final(self).command_list().last().text == r.stdout@
                &&& final(self).command_list().last().timestamp == timestamp@
                &&& (final(self).command_list().last().status == CommandStatus::Okay <==> r.code == 0)
                &&& (final(self).command_list().last().status == CommandStatus::Ko <==> r.code != 0)
            },
            reply is None ==> final(self).command_list().len() == old(self).command_list().len(),
            final(self).list_view() == old(self).list_view(),
            final(self).bar().popover_message() == old(self).bar().popover_message(),
            final(self).frame() == old(self).frame(),
    {
        let ghost before = self.command_list();
        match reply {
            Some(r) => {
                self.set_current_command_input_status(CommandStatus::Okay);
                let mut output = Command::new(r.stdout.as_str(), timestamp);
                output.set_direction(CommandDirection::Output);
                let status = if r.code == 0 {
                    CommandStatus::Okay
                } else {
                    CommandStatus::Ko
                };
                output.set_status(status);
                let ghost mid = self.commands@;
                self.commands.push(output);
                assert(self.command_list() =~= answered(before, Some((r.stdout@, r.code)), timestamp@)) by {
                    assert(self.commands@ =~= mid.push(output));
                }
            },
            None => {
                self.set_current_command_input_status(CommandStatus::Ko);
                assert(self.command_list() == answered(before, None, timestamp@));
            },
        }
        self.set_busy(false);
        proof {
            if old(self).waiting() {
                let after = self.command_list();
                assert forall|i: int| 0 <= i < after.len() implies #[trigger] after[i].status != CommandStatus::Running by {
                    if i < before.len() - 1 {
                        assert(after[i] == before.drop_last()[i]);
                    }
                }
            }
        }
    }
}

} // verus!
