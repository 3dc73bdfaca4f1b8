//! The operation pages: inspection of the server, upgrade of the server
//! and execution of batches of commands.

use vstd::prelude::*;
use crate::widgets::OperationPage;

verus! {

/// What humantime writes for a duration of `secs` seconds.
pub uninterp spec fn duration_text(secs: u64) -> Seq<char>;

/// The uptime of the server, written by `humantime::format_duration` for a
/// duration of `secs` whole seconds (for instance `2h 37m`). The text is a
/// function of `secs` alone, named `duration_text`; the source shows that
/// a duration of zero is written `0s`. The documentation guarantees that
/// `parse_duration` reads the text back as the same duration, so no other
/// number of seconds is written the same way: the whole duration, days,
/// months and years included, is in the text.
#[verifier::external_body]
fn format_uptime(secs: u64) -> (text: String)
    ensures
        text@ == duration_text(secs),
        secs == 0 ==> text@ == "0s"@,
        forall|other: u64| #[trigger] duration_text(other) == text@ ==> other == secs,
{
    humantime::format_duration(std::time::Duration::from_secs(secs)).to_string()
}

/// What the server answers to an inspection request.
pub struct InspectReply {
    pub kernel_version: String,
    pub system_uptime: u64,
}

/// The page that shows the kernel version and the uptime of the server.
pub struct InspectionPage {
    page: OperationPage,
    spinner_visible: bool,
    refresh_sensitive: bool,
    kernel_version: String,
    system_uptime: String,
}

impl InspectionPage {
    /// The frame of the page.
    pub closed spec fn frame(&self) -> OperationPage {
        self.page
    }

    /// Whether the activity spinner shows.
    pub closed spec fn spinning(&self) -> bool {
        self.spinner_visible
    }

    /// Whether the refresh button can be pressed.
    pub closed spec fn refresh_enabled(&self) -> bool {
        self.refresh_sensitive
    }

    /// The kernel version shown.
    pub closed spec fn kernel_version_text(&self) -> Seq<char> {
        self.kernel_version@
    }

    /// The uptime shown.
    pub closed spec fn uptime_text(&self) -> Seq<char> {
        self.system_uptime@
    }

    /// The page is busy exactly when its spinner shows, and then neither
    /// its content nor its refresh button accept input.
    pub open spec fn busy_state(&self, busy: bool) -> bool {
        &&& self.spinning() == busy
        &&& self.refresh_enabled() == !busy
        &&& self.frame().content_sensitive() == !busy
    }

    /// An idle page that shows nothing yet. Its title is the message
    /// "Inspection", translated where it is shown.
    pub fn new() -> (page: InspectionPage)
        ensures
            page.busy_state(false),
            page.frame().page_title() == "Inspection"@,
            page.frame().page_subtitle() == Seq::<char>::empty(),
            page.frame().reported_error() is None,
            !page.frame().client_set(),
            page.kernel_version_text() == Seq::<char>::empty(),
            page.uptime_text() == Seq::<char>::empty(),
    {
        let mut frame = OperationPage::new();
        frame.set_title("Inspection");
        InspectionPage {
            page: frame,
            spinner_visible: false,
            refresh_sensitive: true,
            kernel_version: String::new(),
            system_uptime: String::new(),
        }
    }

    /// The frame of the page.
    pub fn operation_page(&self) -> (frame: &OperationPage)
        ensures
            *frame == self.frame(),
    {
        &self.page
    }

    /// Gives the page a client to talk to, or takes it away.
    pub fn set_client(&mut self, available: bool)
        ensures
            final(self).frame().client_set() == available,
            final(self).frame().content_sensitive() == old(self).frame().content_sensitive(),
            final(self).spinning() == old(self).spinning(),
            final(self).refresh_enabled() == old(self).refresh_enabled(),
            final(self).kernel_version_text() == old(self).kernel_version_text(),
            final(self).uptime_text() == old(self).uptime_text(),
    {
        self.page.set_client(available);
    }

    /// Marks the page as busy or not.
    pub fn set_busy(&mut self, busy: bool)
        ensures
            final(self).busy_state(busy),
            final(self).frame().client_set() == old(self).frame().client_set(),
            final(self).frame().page_title() == old(self).frame().page_title(),
            final(self).frame().page_subtitle() == old(self).frame().page_subtitle(),
            final(self).frame().holds_child() == old(self).frame().holds_child(),
            final(self).frame().reported_error() == old(self).frame().reported_error(),
            final(self).kernel_version_text() == old(self).kernel_version_text(),
            final(self).uptime_text() == old(self).uptime_text(),
    {
        self.page.set_busy(busy);
        self.spinner_visible = busy;
        self.refresh_sensitive = !busy;
    }

    /// Whether the spinner shows.
    pub fn is_spinning(&self) -> (shown: bool)
        ensures
            shown == self.spinning(),
    {
        self.spinner_visible
    }

    /// Whether the refresh button can be pressed.
    pub fn is_refresh_enabled(&self) -> (enabled: bool)
        ensures
            enabled == self.refresh_enabled(),
    {
        self.refresh_sensitive
    }

    /// The kernel version shown.
    pub fn kernel_version(&self) -> (text: String)
        ensures
            text@ == self.kernel_version_text(),
    {
        self.kernel_version.clone()
    }

    /// The uptime shown.
    pub fn system_uptime(&self) -> (text: String)
        ensures
            text@ == self.uptime_text(),
    {
        self.system_uptime.clone()
    }

    /// Starts a refresh: without a client nothing happens and `false` comes
    /// back; with one, the page becomes busy and `true` comes back, and the
    /// inspection request is to be sent.
    pub fn refresh(&mut self) -> (started: bool)
        ensures
            started == old(self).frame().client_set(),
            started ==> final(self).busy_state(true),
            !started ==> *final(self) == *old(self),
            final(self).frame().page_title() == old(self).frame().page_title(),
            final(self).frame().page_subtitle() == old(self).frame().page_subtitle(),
            final(self).frame().holds_child() == old(self).frame().holds_child(),
            final(self).frame().reported_error() == old(self).frame().reported_error(),
            final(self).kernel_version_text() == old(self).kernel_version_text(),
            final(self).uptime_text() == old(self).uptime_text(),
    {
        if !self.page.has_client() {
            return false;
        }
        self.set_busy(true);
        true
    }

    /// Shows `kernel_version` and the uptime text `uptime`.
    pub fn show_inspection(&mut self, kernel_version: String, uptime: String)
        ensures
            final(self).kernel_version_text() == kernel_version@,
            final(self).uptime_text() == uptime@,
            final(self).frame() == old(self).frame(),
            final(self).spinning() == old(self).spinning(),
            final(self).refresh_enabled() == old(self).refresh_enabled(),
    {
        self.kernel_version = kernel_version;
        self.system_uptime = uptime;
    }

    /// Takes in the answer to the inspection request (`None` when the
    /// request failed): an answer is shown, the uptime written by humantime
    /// so that no other uptime would show the same text;
    /// a failure leaves what is shown and reports no error. Either way the
    /// page is no longer busy.
    pub fn refresh_finished(&mut self, reply: Option<InspectReply>)
        ensures
            final(self).busy_state(false),
            final(self).frame().client_set() == old(self).frame().client_set(),
            final(self).frame().page_title() == old(self).frame().page_title(),
            final(self).frame().page_subtitle() == old(self).frame().page_subtitle(),
            final(self).frame().holds_child() == old(self).frame().holds_child(),
            final(self).frame().reported_error() == old(self).frame().reported_error(),
            match reply {
                Some(r) => {
                    &&& final(self).kernel_version_text() == r.kernel_version@
                    &&& final(self).uptime_text() == duration_text(r.system_uptime)
                    &&& forall|other: u64| #[trigger] duration_text(other) == final(self).uptime_text()
                        ==> other == r.system_uptime
                },
                None => {
                    &&& final(self).kernel_version_text() == old(self).kernel_version_text()
                    &&& final(self).uptime_text() == old(self).uptime_text()
                },
            },
    {
        if let Some(r) = reply {
            let uptime = format_uptime(r.system_uptime);
            self.show_inspection(r.kernel_version, uptime);
        }
        self.set_busy(false);
    }
}

/// How the upgrade of the server goes.
#[derive(Clone, Copy, Debug, PartialEq, Eq, Structural)]
pub enum UpgradeState {
    Failed,
    Running,
    Succeed,
    Waiting,
}

impl Default for UpgradeState {
    fn default() -> (state: Self)
        ensures
            state == UpgradeState::Waiting,
    {
        UpgradeState::Waiting
    }
}

/// The label that shows `state`, before translation.
pub open spec fn upgrade_state_text(state: UpgradeState) -> Seq<char> {
    match state {
        UpgradeState::Failed => "Upgrade failed"@,
        UpgradeState::Running => "Upgrade in progress..."@,
        UpgradeState::Succeed => "Upgrade succeed"@,
        UpgradeState::Waiting => "Press \"start\" to start the upgrade"@,
    }
}

/// One report of the server on the upgrade under way.
#[derive(Clone, Copy, Debug, PartialEq, Eq, Structural)]
pub enum UpgradeProgress {
    /// Still running, at `position` percent.
    Running(u32),
    /// The upgrade failed.
    Failure,
    /// The upgrade succeeded.
    Success,
}

/// The state after a report of the server.
pub open spec fn state_after(state: UpgradeState, progress: UpgradeProgress) -> UpgradeState {
    match progress {
        UpgradeProgress::Running(_) => state,
        UpgradeProgress::Failure => UpgradeState::Failed,
        UpgradeProgress::Success => UpgradeState::Succeed,
    }
}

/// The state after a series of reports of the server, in order.
pub open spec fn state_after_all(state: UpgradeState, reports: Seq<UpgradeProgress>) -> UpgradeState
    decreases reports.len(),
{
    if reports.len() == 0 {
        state
    } else {
        state_after_all(state_after(state, reports[0]), reports.drop_first())
    }
}

/// The page from which the server is upgraded.
pub struct UpgradePage {
    page: OperationPage,
    start_sensitive: bool,
    state: UpgradeState,
    position: u32,
    failure_style: bool,
    success_style: bool,
}

impl UpgradePage {
    /// The frame of the page.
    pub closed spec fn frame(&self) -> OperationPage {
        self.page
    }

    /// Whether the start button can be pressed.
    pub closed spec fn start_enabled(&self) -> bool {
        self.start_sensitive
    }

    /// How the upgrade goes.
    pub closed spec fn upgrade_state(&self) -> UpgradeState {
        self.state
    }

    /// How far the upgrade has gone, in percent.
    pub closed spec fn progress(&self) -> u32 {
        self.position
    }

    /// Whether the progress bar has the style `failure`.
    pub closed spec fn failure_styled(&self) -> bool {
        self.failure_style
    }

    /// Whether the progress bar has the style `success`.
    pub closed spec fn success_styled(&self) -> bool {
        self.success_style
    }

    /// An idle page, waiting for the upgrade to start. Its title is the
    /// message "Upgrade", translated where it is shown.
    pub fn new() -> (page: UpgradePage)
        ensures
            page.start_enabled(),
            page.frame().page_title() == "Upgrade"@,
            page.frame().reported_error() is None,
            page.upgrade_state() == UpgradeState::Waiting,
            page.progress() == 0,
            !page.failure_styled(),
            !page.success_styled(),
            !page.frame().client_set(),
    {
        let mut frame = OperationPage::new();
        frame.set_title("Upgrade");
        UpgradePage {
            page: frame,
            start_sensitive: true,
            state: UpgradeState::Waiting,
            position: 0,
            failure_style: false,
            success_style: false,
        }
    }

    /// The frame of the page.
    pub fn operation_page(&self) -> (frame: &OperationPage)
        ensures
            *frame == self.frame(),
    {
        &self.page
    }

    /// Gives the page a client to talk to, or takes it away.
    pub fn set_client(&mut self, available: bool)
        ensures
            final(self).frame().client_set() == available,
            final(self).start_enabled() == old(self).start_enabled(),
            final(self).upgrade_state() == old(self).upgrade_state(),
            final(self).progress() == old(self).progress(),
    {
        self.page.set_client(available);
    }

    /// Marks the page as busy or not: the start button can be pressed only
    /// when it is not.
    pub fn set_busy(&mut self, busy: bool)
        ensures
            final(self).start_enabled() == !busy,
            final(self).frame() == old(self).frame(),
            final(self).upgrade_state() == old(self).upgrade_state(),
            final(self).progress() == old(self).progress(),
            final(self).failure_styled() == old(self).failure_styled(),
            final(self).success_styled() == old(self).success_styled(),
    {
        self.start_sensitive = !busy;
    }

    /// Changes the state of the upgrade. The progress bar takes the style
    /// `failure` when the upgrade failed and `success` when it succeeded,
    /// and loses both when it runs or waits.
    pub fn set_upgrade_state(&mut self, state: UpgradeState)
        ensures
            final(self).upgrade_state() == state,
            state == UpgradeState::Failed ==> final(self).failure_styled()
                && final(self).success_styled() == old(self).success_styled(),
            state == UpgradeState::Succeed ==> final(self).success_styled()
                && final(self).failure_styled() == old(self).failure_styled(),
            (state == UpgradeState::Running || state == UpgradeState::Waiting) ==> !final(self).failure_styled()
                && !final(self).success_styled(),
            final(self).frame() == old(self).frame(),
            final(self).start_enabled() == old(self).start_enabled(),
            final(self).progress() == old(self).progress(),
    {
        self.state = state;
        match state {
            UpgradeState::Failed => {
                self.failure_style = true;
            },
            UpgradeState::Succeed => {
                self.success_style = true;
            },
            UpgradeState::Running | UpgradeState::Waiting => {
                self.failure_style = false;
                self.success_style = false;
            },
        }
    }

    /// How the upgrade goes.
    pub fn get_upgrade_state(&self) -> (state: UpgradeState)
        ensures
            state == self.upgrade_state(),
    {
        self.state
    }

    /// How far the upgrade has gone, in percent.
    pub fn get_progress(&self) -> (position: u32)
        ensures
            position == self.progress(),
    {
        self.position
    }

    /// Whether the start button can be pressed.
    pub fn is_start_enabled(&self) -> (enabled: bool)
        ensures
            enabled == self.start_enabled(),
    {
        self.start_sensitive
    }

    /// The styles of the progress bar: `failure`, then `success`.
    pub fn styles(&self) -> (styles: (bool, bool))
        ensures
            styles == (self.failure_styled(), self.success_styled()),
    {
        (self.failure_style, self.success_style)
    }

    /// Whether the progress bar shows: whenever an upgrade has started.
    pub fn progress_visible(&self) -> (visible: bool)
        ensures
            visible == (self.upgrade_state() != UpgradeState::Waiting),
    {
        self.state != UpgradeState::Waiting
    }

    /// The label that shows `state`, before translation.
    pub fn upgrade_state_text(state: UpgradeState) -> (text: &'static str)
        ensures
            text@ == upgrade_state_text(state),
    {
        match state {
            UpgradeState::Failed => "Upgrade failed",
            UpgradeState::Running => "Upgrade in progress...",
            UpgradeState::Succeed => "Upgrade succeed",
            UpgradeState::Waiting => "Press \"start\" to start the upgrade",
        }
    }

    /// Starts an upgrade: without a client nothing happens and `false` comes
    /// back; with one, the page becomes busy, the progress goes back to
    /// zero and `true` comes back, and the upgrade request is to be sent.
    pub fn start(&mut self) -> (started: bool)
        ensures
            started == old(self).frame().client_set(),
            started ==> !final(self).start_enabled() && final(self).progress() == 0
                && final(self).upgrade_state() == old(self).upgrade_state(),
            !started ==> *final(self) == *old(self),
            final(self).frame() == old(self).frame(),
            final(self).failure_styled() == old(self).failure_styled(),
            final(self).success_styled() == old(self).success_styled(),
    {
        if !self.page.has_client() {
            return false;
        }
        self.set_busy(true);
        self.position = 0;
        true
    }

    /// Takes in the answer to the upgrade request: when the server accepted
    /// it, the upgrade runs; when it refused it, the error is reported with
    /// the message "Upgrade failed" and the error as its details.
    pub fn upgrade_response(&mut self, result: Result<(), String>)
        ensures
            result is Ok ==> final(self).upgrade_state() == UpgradeState::Running
                && !final(self).failure_styled() && !final(self).success_styled()
                && final(self).frame() == old(self).frame(),
            result matches Err(e) ==> {
                &&& final(self).upgrade_state() == old(self).upgrade_state()
                &&& final(self).frame().reported_error() == Some(("Upgrade failed"@, e@, false))
                &&& final(self).frame().page_title() == old(self).frame().page_title()
                &&& final(self).frame().page_subtitle() == old(self).frame().page_subtitle()
                &&& final(self).frame().content_sensitive() == old(self).frame().content_sensitive()
                &&& final(self).frame().holds_child() == old(self).frame().holds_child()
                &&& final(self).failure_styled() == old(self).failure_styled()
                &&& final(self).success_styled() == old(self).success_styled()
            },
            final(self).start_enabled() == old(self).start_enabled(),
            final(self).progress() == old(self).progress(),
            final(self).frame().client_set() == old(self).frame().client_set(),
    {
        match result {
            Ok(()) => self.set_upgrade_state(UpgradeState::Running),
            Err(e) => {
                self.page.show_error("Upgrade failed", e.as_str());
            },
        }
    }

    /// Takes in a report of the server on the upgrade: a running upgrade
    /// moves the progress to its position, a failure or a success changes
    /// the state accordingly.
    pub fn upgrade_progress(&mut self, report: UpgradeProgress)
        ensures
            final(self).upgrade_state() == state_after(old(self).upgrade_state(), report),
            final(self).progress() == (match report {
                UpgradeProgress::Running(position) => position,
                _ => old(self).progress(),
            }),
            final(self).frame() == old(self).frame(),
            final(self).start_enabled() == old(self).start_enabled(),
            final(self).failure_styled() == (old(self).failure_styled() || report is Failure),
            final(self).success_styled() == (old(self).success_styled() || report is Success),
    {
        match report {
            UpgradeProgress::Running(position) => {
                self.position = position;
            },
            UpgradeProgress::Failure => self.set_upgrade_state(UpgradeState::Failed),
            UpgradeProgress::Success => self.set_upgrade_state(UpgradeState::Succeed),
        }
    }

    /// Ends the upgrade: the page is no longer busy.
    pub fn upgrade_finished(&mut self)
        ensures
            final(self).start_enabled(),
            final(self).frame() == old(self).frame(),
            final(self).upgrade_state() == old(self).upgrade_state(),
            final(self).progress() == old(self).progress(),
    {
        self.set_busy(false);
    }
}

/// Once an upgrade has started, no report of the server brings the page back
/// to waiting: the state stays `Running` until a failure or a success, and
/// is then the last of those reported.
pub proof fn lemma_upgrade_never_waits_again(reports: Seq<UpgradeProgress>)
    ensures
        state_after_all(UpgradeState::Running, reports) != UpgradeState::Waiting,
    decreases reports.len(),
{
    lemma_started_upgrade_stays_started(UpgradeState::Running, reports);
}

/// From any state but waiting, reports never lead to waiting.
pub proof fn lemma_started_upgrade_stays_started(state: UpgradeState, reports: Seq<UpgradeProgress>)
    requires
        state != UpgradeState::Waiting,
    ensures
        state_after_all(state, reports) != UpgradeState::Waiting,
    decreases reports.len(),
{
    if reports.len() > 0 {
        lemma_started_upgrade_stays_started(state_after(state, reports[0]), reports.drop_first());
    }
}

/// Progress reports alone leave the state of the upgrade as it was.
pub proof fn lemma_progress_keeps_state(state: UpgradeState, reports: Seq<UpgradeProgress>)
    requires
        forall|i: int| 0 <= i < reports.len() ==> #[trigger] reports[i] is Running,
    ensures
        state_after_all(state, reports) == state,
    decreases reports.len(),
{
    if reports.len() > 0 {
        assert forall|i: int| 0 <= i < reports.drop_first().len() implies #[trigger] reports.drop_first()[i] is Running by {
            assert(reports.drop_first()[i] == reports[i + 1]);
        }
        lemma_progress_keeps_state(state, reports.drop_first());
    }
}


/// The batch file that the user chose, as far as it could be read.
pub enum BatchSource {
    /// The chosen file has no local path.
    NoPath,
    /// The path has no file name, or one that is not valid UTF-8.
    NoFileName,
    /// The file could not be read.
    Unreadable { file_name: String, error: String },
    /// The file was read.
    Read { file_name: String, text: String },
}

/// How running a batch on the server went.
pub enum BatchOutcome {
    /// The batch ran and its report was rendered as this text.
    Report(String),
    /// The batch ran but its report could not be rendered.
    RenderFailed(String),
    /// The batch could not be run.
    RunFailed(String),
}

/// The message of the error that loading `source` reports, before
/// translation; none when the file was read.
pub open spec fn load_failure_text(source: BatchSource) -> Option<Seq<char>> {
    match source {
        BatchSource::NoPath => Some("Failed to load batch"@),
        BatchSource::NoFileName => Some("Failed to load batch"@),
        BatchSource::Unreadable { .. } => Some("Failed to read file"@),
        BatchSource::Read { .. } => None,
    }
}

/// The page from which batches of commands are loaded and run.
pub struct BatchExecutionPage {
    page: OperationPage,
    exec_sensitive: bool,
    input_sensitive: bool,
    output_sensitive: bool,
    spinner_visible: bool,
    input_text: String,
    output_text: String,
    toast: Option<String>,
}

impl BatchExecutionPage {
    /// The frame of the page.
    pub closed spec fn frame(&self) -> OperationPage {
        self.page
    }

    /// Whether the execute button can be pressed.
    pub closed spec fn exec_enabled(&self) -> bool {
        self.exec_sensitive
    }

    /// Whether the batch text can be edited.
    pub closed spec fn input_enabled(&self) -> bool {
        self.input_sensitive
    }

    /// Whether the output can be read and copied.
    pub closed spec fn output_enabled(&self) -> bool {
        self.output_sensitive
    }

    /// Whether the activity spinner shows.
    pub closed spec fn spinning(&self) -> bool {
        self.spinner_visible
    }

    /// The text of the batch.
    pub closed spec fn input(&self) -> Seq<char> {
        self.input_text@
    }

    /// The text of the report.
    pub closed spec fn output(&self) -> Seq<char> {
        self.output_text@
    }

    /// Whether a toast was shown.
    pub closed spec fn toasted(&self) -> bool {
        self.toast is Some
    }

    /// The text of the last toast shown.
    pub closed spec fn toast_text(&self) -> Option<Seq<char>> {
        match self.toast {
            Some(t) => Some(t@),
            None => None,
        }
    }

    /// The execute button and the batch text are enabled together.
    pub open spec fn input_actions(&self, enabled: bool) -> bool {
        &&& self.exec_enabled() == enabled
        &&& self.input_enabled() == enabled
    }

    /// The page is busy exactly when its spinner shows, and then neither
    /// its content nor its input accept anything.
    pub open spec fn busy_state(&self, busy: bool) -> bool {
        &&& self.spinning() == busy
        &&& self.frame().content_sensitive() == !busy
        &&& self.input_actions(!busy)
    }

    /// A page with no batch loaded: nothing can be executed, edited or
    /// copied yet. Its title is the message "Batch Execution", translated
    /// where it is shown.
    pub fn new() -> (page: BatchExecutionPage)
        ensures
            page.frame().page_title() == "Batch Execution"@,
            page.input_actions(false),
            !page.output_enabled(),
            !page.spinning(),
            page.frame().content_sensitive(),
            !page.frame().client_set(),
            !page.frame().holds_child(),
            page.frame().page_subtitle() == Seq::<char>::empty(),
            page.frame().reported_error() is None,
            page.input() == Seq::<char>::empty(),
            page.output() == Seq::<char>::empty(),
            !page.toasted(),
            page.toast_text() is None,
    {
        let mut frame = OperationPage::new();
        frame.set_title("Batch Execution");
        let mut page = BatchExecutionPage {
            page: frame,
            exec_sensitive: true,
            input_sensitive: true,
            output_sensitive: true,
            spinner_visible: false,
            input_text: String::new(),
            output_text: String::new(),
            toast: None,
        };
        page.enable_input_actions(false);
        page.enable_output_actions(false);
        page
    }

    /// The frame of the page.
    pub fn operation_page(&self) -> (frame: &OperationPage)
        ensures
            *frame == self.frame(),
    {
        &self.page
    }

    /// Gives the page a client to talk to, or takes it away.
    pub fn set_client(&mut self, available: bool)
        ensures
            final(self).frame().client_set() == available,
            final(self).frame().content_sensitive() == old(self).frame().content_sensitive(),
            final(self).exec_enabled() == old(self).exec_enabled(),
            final(self).input_enabled() == old(self).input_enabled(),
            final(self).output_enabled() == old(self).output_enabled(),
            final(self).spinning() == old(self).spinning(),
            final(self).input() == old(self).input(),
            final(self).output() == old(self).output(),
    {
        self.page.set_client(available);
    }

    /// Enables or disables the execute button and the batch text together.
    pub fn enable_input_actions(&mut self, enabled: bool)
        ensures
            final(self).input_actions(enabled),
            final(self).output_enabled() == old(self).output_enabled(),
            final(self).spinning() == old(self).spinning(),
            final(self).frame() == old(self).frame(),
            final(self).input() == old(self).input(),
            final(self).output() == old(self).output(),
            final(self).toast_text() == old(self).toast_text(),
            final(self).toasted() == old(self).toasted(),
    {
        self.exec_sensitive = enabled;
        self.input_sensitive = enabled;
    }

    /// Enables or disables the output.
    pub fn enable_output_actions(&mut self, enabled: bool)
        ensures
            final(self).output_enabled() == enabled,
            final(self).exec_enabled() == old(self).exec_enabled(),
            final(self).input_enabled() == old(self).input_enabled(),
            final(self).spinning() == old(self).spinning(),
            final(self).frame() == old(self).frame(),
            final(self).input() == old(self).input(),
            final(self).output() == old(self).output(),
            final(self).toast_text() == old(self).toast_text(),
            final(self).toasted() == old(self).toasted(),
    {
        self.output_sensitive = enabled;
    }

    /// Marks the page as busy or not.
    pub fn set_busy(&mut self, busy: bool)
        ensures
            final(self).busy_state(busy),
            final(self).output_enabled() == old(self).output_enabled(),
            final(self).frame().client_set() == old(self).frame().client_set(),
            final(self).frame().page_subtitle() == old(self).frame().page_subtitle(),
            final(self).frame().reported_error() == old(self).frame().reported_error(),
            final(self).frame().page_title() == old(self).frame().page_title(),
            final(self).frame().holds_child() == old(self).frame().holds_child(),
            final(self).toast_text() == old(self).toast_text(),
            final(self).toasted() == old(self).toasted(),
            final(self).input() == old(self).input(),
            final(self).output() == old(self).output(),
    {
        self.page.set_busy(busy);
        self.spinner_visible = busy;
        self.enable_input_actions(!busy);
    }

    /// Whether the execute button can be pressed.
    pub fn is_exec_enabled(&self) -> (enabled: bool)
        ensures
            enabled == self.exec_enabled(),
    {
        self.exec_sensitive
    }

    /// Whether the output can be read and copied.
    pub fn is_output_enabled(&self) -> (enabled: bool)
        ensures
            enabled == self.output_enabled(),
    {
        self.output_sensitive
    }

    /// Whether the spinner shows.
    pub fn is_spinning(&self) -> (shown: bool)
        ensures
            shown == self.spinning(),
    {
        self.spinner_visible
    }

    /// The text of the batch.
    pub fn input_text(&self) -> (text: String)
        ensures
            text@ == self.input(),
    {
        self.input_text.clone()
    }

    /// The text of the report.
    pub fn output_text(&self) -> (text: String)
        ensures
            text@ == self.output(),
    {
        self.output_text.clone()
    }

    /// The message of the error that loading `source` reports, before
    /// translation; none when the file was read.
    pub fn load_failure_text(source: &BatchSource) -> (text: Option<&'static str>)
        ensures
            match text {
                Some(t) => load_failure_text(*source) == Some(t@),
                None => load_failure_text(*source) is None,
            },
    {
        match source {
            BatchSource::NoPath => Some("Failed to load batch"),
            BatchSource::NoFileName => Some("Failed to load batch"),
            BatchSource::Unreadable { .. } => Some("Failed to read file"),
            BatchSource::Read { .. } => None,
        }
    }

    /// Loads the batch file the user chose. A file that was read has its
    /// name as the subtitle and its text as the batch; the output is
    /// emptied and disabled and the batch can be run. Otherwise an error is
    /// reported, its message `load_failure_text`, and the batch is left as
    /// it was: for a file that could not be read, the details are the read
    /// error and its name still goes to the subtitle; without a path or a
    /// file name, the details are the message "Invalid file" or "Invalid
    /// file name".
    pub fn load_batch(&mut self, source: BatchSource)
        ensures
            match source {
                BatchSource::Read { file_name, text } => {
                    &&& final(self).frame().page_subtitle() == file_name@
                    &&& final(self).input() == text@
                    &&& final(self).output() == Seq::<char>::empty()
                    &&& final(self).input_actions(true)
                    &&& !final(self).output_enabled()
                    &&& final(self).frame().reported_error() == old(self).frame().reported_error()
                },
                BatchSource::Unreadable { file_name, error } => {
                    &&& final(self).frame().page_subtitle() == file_name@
                    &&& final(self).frame().reported_error() == Some(("Failed to read file"@, error@, false))
                    &&& final(self).input() == old(self).input()
                    &&& final(self).output() == old(self).output()
                    &&& final(self).exec_enabled() == old(self).exec_enabled()
                    &&& final(self).input_enabled() == old(self).input_enabled()
                    &&& final(self).output_enabled() == old(self).output_enabled()
                },
                _ => {
                    &&& final(self).frame().page_subtitle() == old(self).frame().page_subtitle()
                    &&& final(self).frame().reported_error() == Some((
                        "Failed to load batch"@,
                        if source is NoPath { "Invalid file"@ } else { "Invalid file name"@ },
                        true,
                    ))
                    &&& final(self).input() == old(self).input()
                    &&& final(self).output() == old(self).output()
                    &&& final(self).exec_enabled() == old(self).exec_enabled()
                    &&& final(self).input_enabled() == old(self).input_enabled()
                    &&& final(self).output_enabled() == old(self).output_enabled()
                },
            },
            final(self).spinning() == old(self).spinning(),
            final(self).frame().content_sensitive() == old(self).frame().content_sensitive(),
            final(self).frame().client_set() == old(self).frame().client_set(),
            final(self).frame().page_title() == old(self).frame().page_title(),
            final(self).frame().holds_child() == old(self).frame().holds_child(),
            final(self).toast_text() == old(self).toast_text(),
            final(self).toasted() == old(self).toasted(),
    {
        match source {
            BatchSource::NoPath => {
                self.page.show_error_message("Failed to load batch", "Invalid file");
            },
            BatchSource::NoFileName => {
                self.page.show_error_message("Failed to load batch", "Invalid file name");
            },
            BatchSource::Unreadable { file_name, error } => {
                self.page.set_subtitle(file_name.as_str());
                self.page.show_error("Failed to read file", error.as_str());
            },
            BatchSource::Read { file_name, text } => {
                self.page.set_subtitle(file_name.as_str());
                self.input_text = text;
                self.output_text = String::new();
                self.enable_input_actions(true);
                self.enable_output_actions(false);
            },
        }
    }

    /// Replaces the text of the batch, as edited by the user.
    pub fn set_input_text(&mut self, text: &str)
        ensures
            final(self).input() == text@,
            final(self).output() == old(self).output(),
            final(self).frame() == old(self).frame(),
            final(self).exec_enabled() == old(self).exec_enabled(),
            final(self).input_enabled() == old(self).input_enabled(),
            final(self).output_enabled() == old(self).output_enabled(),
            final(self).spinning() == old(self).spinning(),
    {
        self.input_text = text.to_owned();
    }

    /// Starts executing the batch: the output is emptied, and the text of
    /// the batch, which is to be parsed, is returned.
    pub fn exec_batch(&mut self) -> (batch: String)
        ensures
            batch@ == old(self).input(),
            final(self).output() == Seq::<char>::empty(),
            final(self).input() == old(self).input(),
            final(self).frame() == old(self).frame(),
            final(self).exec_enabled() == old(self).exec_enabled(),
            final(self).input_enabled() == old(self).input_enabled(),
            final(self).output_enabled() == old(self).output_enabled(),
            final(self).spinning() == old(self).spinning(),
    {
        self.output_text = String::new();
        self.input_text.clone()
    }

    /// Reports that the batch could not be parsed, with the message "Invalid
    /// batch" and `error` as the details.
    pub fn batch_invalid(&mut self, error: &str)
        ensures
            final(self).frame().reported_error() == Some(("Invalid batch"@, error@, false)),
            final(self).frame().page_subtitle() == old(self).frame().page_subtitle(),
            final(self).frame().page_title() == old(self).frame().page_title(),
            final(self).frame().content_sensitive() == old(self).frame().content_sensitive(),
            final(self).input() == old(self).input(),
            final(self).output() == old(self).output(),
            final(self).exec_enabled() == old(self).exec_enabled(),
            final(self).input_enabled() == old(self).input_enabled(),
            final(self).output_enabled() == old(self).output_enabled(),
            final(self).spinning() == old(self).spinning(),
    {
        self.page.show_error("Invalid batch", error);
    }

    /// Starts running the parsed batch: without a client nothing happens and
    /// `false` comes back; with one, the page becomes busy and `true` comes
    /// back, and the batch is to be run.
    pub fn run_batch(&mut self) -> (started: bool)
        ensures
            started == old(self).frame().client_set(),
            started ==> final(self).busy_state(true),
            !started ==> *final(self) == *old(self),
            final(self).input() == old(self).input(),
            final(self).output() == old(self).output(),
            final(self).output_enabled() == old(self).output_enabled(),
            final(self).frame().client_set() == old(self).frame().client_set(),
            final(self).frame().page_subtitle() == old(self).frame().page_subtitle(),
            final(self).frame().reported_error() == old(self).frame().reported_error(),
            final(self).frame().page_title() == old(self).frame().page_title(),
            final(self).frame().holds_child() == old(self).frame().holds_child(),
            final(self).toast_text() == old(self).toast_text(),
            final(self).toasted() == old(self).toasted(),
    {
        if !self.page.has_client() {
            return false;
        }
        self.set_busy(true);
        true
    }

    /// Takes in how running the batch went: a rendered report becomes the
    /// output; a failure is reported with the message "Failed to render
    /// report" or "Failed to run batch" and the error as its details. Either
    /// way the page is no longer busy and its output is enabled.
    pub fn batch_finished(&mut self, outcome: BatchOutcome)
        ensures
            final(self).busy_state(false),
            final(self).output_enabled(),
            final(self).input() == old(self).input(),
            match outcome {
                BatchOutcome::Report(text) => {
                    &&& final(self).output() == text@
                    &&& final(self).frame().reported_error() == old(self).frame().reported_error()
                },
                BatchOutcome::RenderFailed(e) => {
                    &&& final(self).output() == old(self).output()
                    &&& final(self).frame().reported_error() == Some(("Failed to render report"@, e@, false))
                },
                BatchOutcome::RunFailed(e) => {
                    &&& final(self).output() == old(self).output()
                    &&& final(self).frame().reported_error() == Some(("Failed to run batch"@, e@, false))
                },
            },
            final(self).frame().client_set() == old(self).frame().client_set(),
            final(self).frame().page_subtitle() == old(self).frame().page_subtitle(),
            final(self).frame().page_title() == old(self).frame().page_title(),
            final(self).frame().holds_child() == old(self).frame().holds_child(),
            final(self).toast_text() == old(self).toast_text(),
            final(self).toasted() == old(self).toasted(),
    {
        match outcome {
            BatchOutcome::Report(text) => {
                self.output_text = text;
            },
            BatchOutcome::RenderFailed(e) => {
                self.page.show_error("Failed to render report", e.as_str());
            },
            BatchOutcome::RunFailed(e) => {
                self.page.show_error("Failed to run batch", e.as_str());
            },
        }
        self.set_busy(false);
        self.enable_output_actions(true);
    }

    /// Copies the output: its text, to be put on the clipboard, is
    /// returned, and a toast with the message "Batch output copied"
    /// (translated where it is shown) is shown.
    pub fn copy_output(&mut self) -> (text: String)
        ensures
            text@ == old(self).output(),
            final(self).toasted(),
            final(self).toast_text() == Some("Batch output copied"@),
            final(self).output() == old(self).output(),
            final(self).input() == old(self).input(),
            final(self).frame() == old(self).frame(),
    {
        self.toast = Some("Batch output copied".to_owned());
        self.output_text.clone()
    }

    /// The text of the last toast shown, if any.
    pub fn last_toast(&self) -> (toast: Option<String>)
        ensures
            match toast {
                Some(t) => self.toast_text() == Some(t@),
                None => self.toast_text() is None,
            },
            toast is Some == self.toasted(),
    {
        match &self.toast {
            Some(t) => Some(t.clone()),
            None => None,
        }
    }
}

} // verus!
