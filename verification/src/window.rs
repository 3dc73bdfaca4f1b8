//! The main window: the connection workflow and the page shown.

use vstd::prelude::*;
use crate::i18n::{interpolate, interpolation};
use crate::widgets::{with_recent_url, ConnectionBar, ConnectionStatusPage, OperationsRow};

verus! {

/// The scheme every server address must start with.
pub open spec fn http_prefix() -> Seq<char> {
    "http://"@
}

/// Whether `url` names a server the window can connect to: it is not empty
/// and starts with `http://`.
pub open spec fn connectable_url(url: Seq<char>) -> bool {
    url.len() > 0 && http_prefix().is_prefix_of(url)
}

/// Whether `url` starts with `http://`.
pub fn starts_with_http(url: &str) -> (found: bool)
    ensures
        found == http_prefix().is_prefix_of(url@),
{
    let prefix = "http://";
    proof {
        reveal_strlit("http://");
    }
    let n = url.unicode_len();
    if n < 7 {
        return false;
    }
    let mut i: usize = 0;
    while i < 7
        invariant
            n == url@.len(),
            7 <= n,
            prefix@ == http_prefix(),
            prefix@.len() == 7,
            i <= 7,
            forall|j: int| 0 <= j < i ==> url@[j] == prefix@[j],
        decreases 7 - i,
    {
        if url.get_char(i) != prefix.get_char(i) {
            return false;
        }
        i = i + 1;
    }
    true
}

/// What the window asks of the client when the connect button is pressed.
#[derive(Debug)]
pub enum ConnectionRequest {
    /// Connect to the server at this address.
    Connect(String),
    /// Close the current connection.
    Disconnect,
}

/// The dialog shown when connecting or disconnecting failed: its message
/// and the template of its details (both translated where they are shown),
/// and the address and the error that fill the template.
pub struct ConnectionAlert {
    pub message: &'static str,
    pub details: &'static str,
    pub url: String,
    pub error: String,
}

impl ConnectionAlert {
    /// The details of the dialog, given the translation of its template:
    /// the template with its placeholders filled by the address, then the
    /// error.
    pub fn details_text(&self, translated_details: &str) -> (text: String)
        ensures
            text@ == interpolation(translated_details@, seq![self.url@, self.error@]),
    {
        let args = [self.url.as_str(), self.error.as_str()];
        let text = interpolate(translated_details, &args);
        assert(crate::i18n::str_views(args@) =~= seq![self.url@, self.error@]);
        text
    }
}

/// The message and the details (with placeholders for the address and the
/// error) of the dialog shown when connecting or disconnecting failed,
/// before translation.
pub open spec fn failure_texts(was_connected: bool) -> (Seq<char>, Seq<char>) {
    if was_connected {
        ("Disconnection failed"@, "Failed to disconnect from {}: {}"@)
    } else {
        ("Connection failed"@, "Failed to connect to {}: {}"@)
    }
}

/// The main window of the client.
pub struct Window {
    connection_bar: ConnectionBar,
    status_page: ConnectionStatusPage,
    operations_sensitive: bool,
    visible_page: String,
    show_content: bool,
}

impl Window {
    /// The connection bar of the window.
    pub closed spec fn bar(&self) -> ConnectionBar {
        self.connection_bar
    }

    /// The connection status page of the window.
    pub closed spec fn status(&self) -> ConnectionStatusPage {
        self.status_page
    }

    /// Whether the operations can be chosen.
    pub closed spec fn operations_enabled(&self) -> bool {
        self.operations_sensitive
    }

    /// The name of the page shown.
    pub closed spec fn shown_page(&self) -> Seq<char> {
        self.visible_page@
    }

    /// Whether the content pane is shown rather than the sidebar.
    pub closed spec fn content_shown(&self) -> bool {
        self.show_content
    }

    /// The parts of the window agree: the status page tells that a
    /// connection is established, and the operations can be chosen, exactly
    /// when the address is locked because a connection can be stopped.
    pub open spec fn consistent(&self) -> bool {
        &&& self.bar().shows_connectable(!self.status().is_successful())
        &&& self.operations_enabled() == self.status().is_successful()
    }

    /// A window ready to connect, showing the connection status page.
    pub fn new() -> (window: Window)
        ensures
            window.consistent(),
            window.bar().shows_connectable(true),
            !window.status().is_successful(),
            !window.operations_enabled(),
            window.shown_page() == "connection-status"@,
            !window.content_shown(),
            window.bar().recent_urls() == Seq::<Seq<char>>::empty(),
            window.bar().url_text() == Seq::<char>::empty(),
    {
        let mut window = Window {
            connection_bar: ConnectionBar::new(),
            status_page: ConnectionStatusPage::new(),
            operations_sensitive: false,
            visible_page: String::new(),
            show_content: false,
        };
        window.enable_connection(true);
        window
    }

    /// The connection bar of the window.
    pub fn connection_bar(&self) -> (bar: &ConnectionBar)
        ensures
            *bar == self.bar(),
    {
        &self.connection_bar
    }

    /// The connection status page of the window.
    pub fn connection_status_page(&self) -> (page: &ConnectionStatusPage)
        ensures
            *page == self.status(),
    {
        &self.status_page
    }

    /// Whether the operations can be chosen.
    pub fn operations_sensitive(&self) -> (enabled: bool)
        ensures
            enabled == self.operations_enabled(),
    {
        self.operations_sensitive
    }

    /// The name of the page shown.
    pub fn visible_page(&self) -> (name: String)
        ensures
            name@ == self.shown_page(),
    {
        self.visible_page.clone()
    }

    /// Whether the content pane is shown rather than the sidebar.
    pub fn shows_content(&self) -> (shown: bool)
        ensures
            shown == self.content_shown(),
    {
        self.show_content
    }

    /// Replaces the address typed in the connection bar.
    pub fn set_url(&mut self, url: &str)
        ensures
            final(self).bar().url_text() == url@,
            final(self).bar().recent_urls() == old(self).bar().recent_urls(),
            final(self).status() == old(self).status(),
            final(self).operations_enabled() == old(self).operations_enabled(),
            final(self).shown_page() == old(self).shown_page(),
            old(self).consistent() ==> final(self).consistent(),
    {
        self.connection_bar.set_url(url);
    }

    /// Loads the list of recently used addresses: it becomes `urls`.
    pub fn load_urls(&mut self, urls: &[&str])
        ensures
            final(self).bar().recent_urls() == urls@.map_values(|u: &str| u@),
            final(self).bar().url_text() == old(self).bar().url_text(),
            final(self).status() == old(self).status(),
            final(self).operations_enabled() == old(self).operations_enabled(),
            final(self).shown_page() == old(self).shown_page(),
            old(self).consistent() ==> final(self).consistent(),
    {
        self.connection_bar.set_recent_urls(urls);
    }

    /// The list of recently used addresses, to be saved.
    pub fn save_urls(&self) -> (urls: Vec<String>)
        ensures
            urls@.map_values(|u: String| u@) == self.bar().recent_urls(),
    {
        self.connection_bar.get_recent_urls()
    }

    /// Tells whether to allow connection or not: the bar follows, the
    /// connection status page is shown and tells the opposite, and the
    /// operations can be chosen only once connected.
    pub fn enable_connection(&mut self, enabled: bool)
        ensures
            final(self).consistent(),
            final(self).bar().shows_connectable(enabled),
            final(self).status().is_successful() == !enabled,
            final(self).operations_enabled() == !enabled,
            final(self).shown_page() == "connection-status"@,
            final(self).content_shown() == old(self).content_shown(),
            final(self).bar().url_text() == old(self).bar().url_text(),
            final(self).bar().recent_urls() == old(self).bar().recent_urls(),
            final(self).bar().popover_message() == old(self).bar().popover_message(),
    {
        self.connection_bar.enable_connection(enabled);
        self.visible_page = "connection-status".to_owned();
        self.status_page.set_successful(!enabled);
        self.operations_sensitive = !enabled;
    }

    /// Shows the page named `name`.
    pub fn select_page(&mut self, name: &str)
        ensures
            final(self).shown_page() == name@,
            final(self).bar() == old(self).bar(),
            final(self).status() == old(self).status(),
            final(self).operations_enabled() == old(self).operations_enabled(),
            final(self).content_shown() == old(self).content_shown(),
    {
        self.visible_page = name.to_owned();
    }

    /// Opens the page of the operation `row`, in the content pane.
    pub fn operations_row_selected(&mut self, row: &OperationsRow)
        ensures
            final(self).shown_page() == row.target_page(),
            final(self).content_shown(),
            final(self).bar() == old(self).bar(),
            final(self).status() == old(self).status(),
            final(self).operations_enabled() == old(self).operations_enabled(),
    {
        self.show_content = true;
        self.visible_page = row.page_name();
    }

    /// What to ask of the client when the connect button is pressed, given
    /// whether it is connected: nothing when the address typed is not a
    /// server address, else to disconnect when connected and to connect to
    /// the address when not.
    pub fn toggle_connection(&self, is_connected: bool) -> (request: Option<ConnectionRequest>)
        ensures
            !connectable_url(self.bar().url_text()) ==> request is None,
            connectable_url(self.bar().url_text()) && is_connected ==> request matches Some(
                ConnectionRequest::Disconnect,
            ),
            connectable_url(self.bar().url_text()) && !is_connected ==> (request matches Some(
                ConnectionRequest::Connect(url),
            ) && url@ == self.bar().url_text()),
    {
        let url = self.connection_bar.get_url();
        if url.as_str().is_empty() || !starts_with_http(url.as_str()) {
            return None;
        }
        if is_connected {
            Some(ConnectionRequest::Disconnect)
        } else {
            Some(ConnectionRequest::Connect(url))
        }
    }

    /// The message and the details of the failure dialog, before
    /// translation.
    pub fn failure_texts(was_connected: bool) -> (texts: (&'static str, &'static str))
        ensures
            (texts.0@, texts.1@) == failure_texts(was_connected),
    {
        if was_connected {
            ("Disconnection failed", "Failed to disconnect from {}: {}")
        } else {
            ("Connection failed", "Failed to connect to {}: {}")
        }
    }

    /// Takes in how the request made for `url` went, given whether the
    /// client was connected when it was made. A failure gives the dialog to
    /// show, with the texts of `failure_texts` and the address and the
    /// error; a connection that succeeded adds `url` to the recently used
    /// addresses; a disconnection that succeeded changes nothing.
    pub fn connection_finished(
        &mut self,
        was_connected: bool,
        url: &str,
        result: Result<(), String>,
    ) -> (alert: Option<ConnectionAlert>)
        ensures
            result is Ok ==> alert is None,
            result matches Err(e) ==> (alert matches Some(a) && (a.message@, a.details@) == failure_texts(
                was_connected,
            ) && a.url@ == url@ && a.error@ == e@),
            (result is Ok && !was_connected) ==> final(self).bar().recent_urls() == with_recent_url(
                old(self).bar().recent_urls(),
                url@,
            ),
            (result is Err || was_connected) ==> final(self).bar().recent_urls() == old(self).bar().recent_urls(),
            final(self).bar().url_text() == old(self).bar().url_text(),
            final(self).status() == old(self).status(),
            final(self).operations_enabled() == old(self).operations_enabled(),
            final(self).shown_page() == old(self).shown_page(),
            final(self).content_shown() == old(self).content_shown(),
            final(self).bar().popover_message() == old(self).bar().popover_message(),
            final(self).bar().shows_connectable(true) == old(self).bar().shows_connectable(true),
            final(self).bar().shows_connectable(false) == old(self).bar().shows_connectable(false),
            old(self).consistent() ==> final(self).consistent(),
    {
        match result {
            Err(e) => {
                let (message, details) = Self::failure_texts(was_connected);
                Some(ConnectionAlert { message, details, url: url.to_owned(), error: e })
            },
            Ok(()) => {
                if !was_connected {
                    self.connection_bar.add_recent_url(url);
                }
                None
            },
        }
    }
}

/// Saving the recently used addresses of a window and loading them into a
/// window gives that window the same list: `saved` is what `save_urls`
/// returned for `from`, `loaded` the same addresses as slices, and `into`
/// the window after `load_urls(loaded)`.
pub proof fn lemma_saved_urls_load_back(from: Window, saved: Seq<String>, loaded: Seq<&str>, into: Window)
    requires
        saved.map_values(|u: String| u@) == from.bar().recent_urls(),
        loaded.map_values(|u: &str| u@) == saved.map_values(|u: String| u@),
        into.bar().recent_urls() == loaded.map_values(|u: &str| u@),
    ensures
        into.bar().recent_urls() == from.bar().recent_urls(),
{
}

/// A connection that succeeded leaves its address among the recently used
/// ones, however many times it was made.
pub proof fn lemma_connected_url_is_recent(recent: Seq<Seq<char>>, url: Seq<char>)
    ensures
        with_recent_url(recent, url).contains(url),
        with_recent_url(with_recent_url(recent, url), url) == with_recent_url(recent, url),
{
    crate::widgets::lemma_added_url_is_recent(recent, url);
    crate::widgets::lemma_add_recent_url_idempotent(recent, url);
}

/// An address the window accepts is never empty, and anything that starts
/// with `http://` is accepted.
pub proof fn lemma_connectable_url(url: Seq<char>)
    ensures
        connectable_url(url) <==> http_prefix().is_prefix_of(url),
{
    reveal_strlit("http://");
}

} // verus!
