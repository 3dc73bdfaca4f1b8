//! The widgets shared by the window and its pages: the connection bar, the
//! connection status page, the rows of the operation list, the page frame
//! that every operation page shares, the certificate chooser and the
//! preferences dialog.

use vstd::prelude::*;

verus! {

/// `recent` with `url` added at its end, unless it already holds it.
pub open spec fn with_recent_url(recent: Seq<Seq<char>>, url: Seq<char>) -> Seq<Seq<char>> {
    if recent.contains(url) {
        recent
    } else {
        recent.push(url)
    }
}

/// The icon of the connect button when a connection can be started.
pub open spec fn start_icon() -> Seq<char> {
    "media-playback-start-symbolic"@
}

/// The icon of the connect button when the connection can be stopped.
pub open spec fn stop_icon() -> Seq<char> {
    "media-playback-stop-symbolic"@
}

/// The bar in which the server address is typed, with its connect button,
/// the list of recently used addresses and a popover for messages.
pub struct ConnectionBar {
    url: String,
    url_sensitive: bool,
    recent: Vec<String>,
    icon_name: &'static str,
    suggested: bool,
    destructive: bool,
    popover: Option<String>,
}

impl ConnectionBar {
    /// The address typed in the entry.
    pub closed spec fn url_text(&self) -> Seq<char> {
        self.url@
    }

    /// Whether the address can be edited.
    pub closed spec fn url_editable(&self) -> bool {
        self.url_sensitive
    }

    /// The recently used addresses, oldest first.
    pub closed spec fn recent_urls(&self) -> Seq<Seq<char>> {
        self.recent@.map_values(|u: String| u@)
    }

    /// The icon of the connect button.
    pub closed spec fn button_icon(&self) -> Seq<char> {
        self.icon_name@
    }

    /// Whether the connect button has the style `suggested-action`.
    pub closed spec fn suggested_style(&self) -> bool {
        self.suggested
    }

    /// Whether the connect button has the style `destructive-action`.
    pub closed spec fn destructive_style(&self) -> bool {
        self.destructive
    }

    /// The message of the popover, when it is shown.
    pub closed spec fn popover_message(&self) -> Option<Seq<char>> {
        match self.popover {
            Some(m) => Some(m@),
            None => None,
        }
    }

    /// The bar shows the state in which a connection can be started, or the
    /// one in which it can be stopped.
    pub open spec fn shows_connectable(&self, enabled: bool) -> bool {
        &&& self.url_editable() == enabled
        &&& self.suggested_style() == enabled
        &&& self.destructive_style() == !enabled
        &&& self.button_icon() == if enabled { start_icon() } else { stop_icon() }
    }

    /// An empty bar, ready to connect, with no recent address.
    pub fn new() -> (bar: ConnectionBar)
        ensures
            bar.shows_connectable(true),
            bar.url_text() == Seq::<char>::empty(),
            bar.recent_urls() == Seq::<Seq<char>>::empty(),
            bar.popover_message() is None,
    {
        let mut bar = ConnectionBar {
            url: String::new(),
            url_sensitive: true,
            recent: Vec::new(),
            icon_name: "",
            suggested: false,
            destructive: false,
            popover: None,
        };
        bar.enable_connection(true);
        assert(bar.recent_urls() =~= Seq::<Seq<char>>::empty());
        bar
    }

    /// Tells whether to allow connection or not: when it is allowed, the
    /// address can be edited and the button starts a connection; when it is
    /// not, the address is locked and the button stops the connection.
    pub fn enable_connection(&mut self, enabled: bool)
        ensures
            final(self).shows_connectable(enabled),
            final(self).url_text() == old(self).url_text(),
            final(self).recent_urls() == old(self).recent_urls(),
            final(self).popover_message() == old(self).popover_message(),
    {
        proof {
            reveal_strlit("media-playback-start-symbolic");
            reveal_strlit("media-playback-stop-symbolic");
        }
        if enabled {
            self.icon_name = "media-playback-start-symbolic";
        } else {
            self.icon_name = "media-playback-stop-symbolic";
        }
        self.destructive = !enabled;
        self.suggested = enabled;
        self.url_sensitive = enabled;
    }

    /// The icon of the connect button.
    pub fn icon_name(&self) -> (icon: &'static str)
        ensures
            icon@ == self.button_icon(),
    {
        self.icon_name
    }

    /// Whether the connect button has the style `suggested-action`.
    pub fn is_suggested(&self) -> (styled: bool)
        ensures
            styled == self.suggested_style(),
    {
        self.suggested
    }

    /// Whether the connect button has the style `destructive-action`.
    pub fn is_destructive(&self) -> (styled: bool)
        ensures
            styled == self.destructive_style(),
    {
        self.destructive
    }

    /// Whether the address can be edited.
    pub fn is_url_editable(&self) -> (editable: bool)
        ensures
            editable == self.url_editable(),
    {
        self.url_sensitive
    }

    /// The value of the address entry.
    pub fn get_url(&self) -> (url: String)
        ensures
            url@ == self.url_text(),
    {
        self.url.clone()
    }

    /// Replaces the text of the address entry.
    pub fn set_url(&mut self, url: &str)
        ensures
            final(self).url_text() == url@,
            final(self).url_editable() == old(self).url_editable(),
            final(self).recent_urls() == old(self).recent_urls(),
            final(self).button_icon() == old(self).button_icon(),
            final(self).suggested_style() == old(self).suggested_style(),
            final(self).destructive_style() == old(self).destructive_style(),
            final(self).popover_message() == old(self).popover_message(),
    {
        self.url = url.to_owned();
    }

    /// Sets the list of recently used addresses to `urls`, in order: the
    /// addresses listed before are dropped, as setting the list means.
    pub fn set_recent_urls(&mut self, urls: &[&str])
        ensures
            final(self).recent_urls() == urls@.map_values(|u: &str| u@),
            final(self).url_text() == old(self).url_text(),
            final(self).shows_connectable(true) == old(self).shows_connectable(true),
            final(self).shows_connectable(false) == old(self).shows_connectable(false),
            final(self).popover_message() == old(self).popover_message(),
    {
        self.recent = Vec::new();
        let ghost before = self.recent_urls();
        assert(before =~= Seq::<Seq<char>>::empty());
        let n = urls.len();
        let mut i: usize = 0;
        while i < n
            invariant
                n == urls.len(),
                i <= n,
                self.recent_urls() == before + urls@.take(i as int).map_values(|u: &str| u@),
                self.url@ == old(self).url@,
                self.url_sensitive == old(self).url_sensitive,
                self.icon_name == old(self).icon_name,
                self.suggested == old(self).suggested,
                self.destructive == old(self).destructive,
                self.popover == old(self).popover,
            decreases n - i,
        {
            let ghost prev = self.recent@;
            self.recent.push(urls[i].to_owned());
            assert(self.recent@ =~= prev.push(self.recent@.last()));
            assert(urls@.take(i + 1).map_values(|u: &str| u@) =~= urls@.take(i as int).map_values(
                |u: &str| u@,
            ).push(urls@[i as int]@));
            assert(self.recent_urls() =~= prev.map_values(|u: String| u@).push(urls@[i as int]@));
            i = i + 1;
        }
        assert(urls@.take(n as int) =~= urls@);
        assert(before + urls@.map_values(|u: &str| u@) =~= urls@.map_values(|u: &str| u@));
    }

    /// The list of recently used addresses, oldest first.
    pub fn get_recent_urls(&self) -> (urls: Vec<String>)
        ensures
            urls@.map_values(|u: String| u@) == self.recent_urls(),
    {
        let n = self.recent.len();
        let mut urls: Vec<String> = Vec::new();
        let mut i: usize = 0;
        while i < n
            invariant
                n == self.recent.len(),
                i <= n,
                urls@.map_values(|u: String| u@) == self.recent@.take(i as int).map_values(|u: String| u@),
            decreases n - i,
        {
            let ghost prev = urls@;
            urls.push(self.recent[i].clone());
            assert(urls@ =~= prev.push(urls@.last()));
            assert(self.recent@.take(i + 1).map_values(|u: String| u@) =~= self.recent@.take(
                i as int,
            ).map_values(|u: String| u@).push(self.recent@[i as int]@));
            assert(urls@.map_values(|u: String| u@) =~= prev.map_values(|u: String| u@).push(
                self.recent@[i as int]@,
            ));
            i = i + 1;
        }
        assert(self.recent@.take(n as int) =~= self.recent@);
        urls
    }

    /// Whether `url` is among the recently used addresses.
    pub fn has_recent_url(&self, url: &str) -> (found: bool)
        ensures
            found == self.recent_urls().contains(url@),
    {
        let target = url.to_owned();
        let n = self.recent.len();
        let mut i: usize = 0;
        while i < n
            invariant
                n == self.recent.len(),
                i <= n,
                target@ == url@,
                forall|j: int| 0 <= j < i ==> self.recent@[j]@ != url@,
            decreases n - i,
        {
            if self.recent[i] == target {
                assert(self.recent_urls()[i as int] == url@);
                return true;
            }
            i = i + 1;
        }
        proof {
            if self.recent_urls().contains(url@) {
                let j = choose|j: int| 0 <= j < self.recent_urls().len() && self.recent_urls()[j] == url@;
                assert(self.recent@[j]@ == url@);
            }
        }
        false
    }

    /// Adds `url` at the end of the list of recently used addresses, unless
    /// the list already holds it.
    pub fn add_recent_url(&mut self, url: &str)
        ensures
            final(self).recent_urls() == with_recent_url(old(self).recent_urls(), url@),
            final(self).url_text() == old(self).url_text(),
            final(self).shows_connectable(true) == old(self).shows_connectable(true),
            final(self).shows_connectable(false) == old(self).shows_connectable(false),
            final(self).popover_message() == old(self).popover_message(),
    {
        if !self.has_recent_url(url) {
            let ghost prev = self.recent@;
            self.recent.push(url.to_owned());
            assert(self.recent@ =~= prev.push(self.recent@.last()));
            assert(self.recent_urls() =~= prev.map_values(|u: String| u@).push(url@));
        }
    }

    /// Shows the popover with `message`.
    pub fn show_popover(&mut self, message: &str)
        ensures
            final(self).popover_message() == Some(message@),
            final(self).url_text() == old(self).url_text(),
            final(self).recent_urls() == old(self).recent_urls(),
            final(self).shows_connectable(true) == old(self).shows_connectable(true),
            final(self).shows_connectable(false) == old(self).shows_connectable(false),
    {
        self.popover = Some(message.to_owned());
    }
}

/// Adding an address makes the list hold it.
pub proof fn lemma_added_url_is_recent(recent: Seq<Seq<char>>, url: Seq<char>)
    ensures
        with_recent_url(recent, url).contains(url),
{
    if !recent.contains(url) {
        assert(recent.push(url)[recent.len() as int] == url);
    }
}

/// Adding the same address twice leaves the list as adding it once does.
pub proof fn lemma_add_recent_url_idempotent(recent: Seq<Seq<char>>, url: Seq<char>)
    ensures
        with_recent_url(with_recent_url(recent, url), url) == with_recent_url(recent, url),
{
    lemma_added_url_is_recent(recent, url);
}

/// Adding an address keeps every address that was there, in its place.
pub proof fn lemma_add_recent_url_keeps_order(recent: Seq<Seq<char>>, url: Seq<char>)
    ensures
        with_recent_url(recent, url).len() >= recent.len(),
        with_recent_url(recent, url).take(recent.len() as int) == recent,
{
    assert(recent.push(url).take(recent.len() as int) =~= recent);
    assert(recent.take(recent.len() as int) =~= recent);
}

/// Adding an address to a list without repeats gives a list without
/// repeats.
pub proof fn lemma_add_recent_url_no_duplicates(recent: Seq<Seq<char>>, url: Seq<char>)
    requires
        recent.no_duplicates(),
    ensures
        with_recent_url(recent, url).no_duplicates(),
{
    if !recent.contains(url) {
        let r = recent.push(url);
        assert forall|i: int, j: int| 0 <= i < r.len() && 0 <= j < r.len() && i != j implies r[i] != r[j] by {
            if i == recent.len() as int && j < recent.len() {
                assert(r[j] == recent[j]);
            } else if j == recent.len() as int && i < recent.len() {
                assert(r[i] == recent[i]);
            }
        }
    }
}


/// The icon, title and description (both before translation) that the
/// connection status page shows.
pub open spec fn status_texts(successful: bool) -> (Seq<char>, Seq<char>, Seq<char>) {
    if successful {
        ("face-smile-symbolic"@, "Connected"@, "Connection to server established."@)
    } else {
        ("face-sad-symbolic"@, "Not connected"@, "Enter server address and press \"Connect\"."@)
    }
}

/// The page that tells whether the window is connected to a server.
pub struct ConnectionStatusPage {
    successful: bool,
    icon_name: &'static str,
    title: &'static str,
    description: &'static str,
}

impl ConnectionStatusPage {
    /// Whether the page tells that the connection is established.
    pub closed spec fn is_successful(&self) -> bool {
        self.successful
    }

    /// The icon the page shows.
    pub closed spec fn icon(&self) -> Seq<char> {
        self.icon_name@
    }

    /// The message of the title the page shows, before translation.
    pub closed spec fn title_text(&self) -> Seq<char> {
        self.title@
    }

    /// The message of the description the page shows, before translation.
    pub closed spec fn description_text(&self) -> Seq<char> {
        self.description@
    }

    /// The icon, title and description of the page, before translation.
    pub fn status_texts(successful: bool) -> (texts: (&'static str, &'static str, &'static str))
        ensures
            (texts.0@, texts.1@, texts.2@) == status_texts(successful),
    {
        if successful {
            ("face-smile-symbolic", "Connected", "Connection to server established.")
        } else {
            ("face-sad-symbolic", "Not connected", "Enter server address and press \"Connect\".")
        }
    }

    /// A page that tells that there is no connection.
    pub fn new() -> (page: ConnectionStatusPage)
        ensures
            !page.is_successful(),
            (page.icon(), page.title_text(), page.description_text()) == status_texts(false),
    {
        let mut page = ConnectionStatusPage {
            successful: false,
            icon_name: "",
            title: "",
            description: "",
        };
        page.set_successful(false);
        page
    }

    /// Makes the page tell whether the connection is established: its icon,
    /// and the messages of its title and description (translated where they
    /// are shown), are those of `status_texts`.
    pub fn set_successful(&mut self, successful: bool)
        ensures
            final(self).is_successful() == successful,
            (final(self).icon(), final(self).title_text(), final(self).description_text())
                == status_texts(successful),
    {
        let (icon, title, description) = Self::status_texts(successful);
        self.successful = successful;
        self.icon_name = icon;
        self.title = title;
        self.description = description;
    }

    /// Whether the page tells that the connection is established. The page
    /// keeps the value it was last given and reads it back, as a property
    /// with a getter is meant to: the setter stores it on purpose, where a
    /// setter that only updates the widgets would leave the getter always
    /// answering `false`.
    pub fn successful(&self) -> (successful: bool)
        ensures
            successful == self.is_successful(),
    {
        self.successful
    }

    /// The icon the page shows.
    pub fn icon_name(&self) -> (icon: &'static str)
        ensures
            icon@ == self.icon(),
    {
        self.icon_name
    }

    /// The message of the title the page shows, before translation.
    pub fn title(&self) -> (title: &'static str)
        ensures
            title@ == self.title_text(),
    {
        self.title
    }

    /// The message of the description the page shows, before translation.
    pub fn description(&self) -> (description: &'static str)
        ensures
            description@ == self.description_text(),
    {
        self.description
    }
}

/// A row of the list of operations: its title and the page it opens.
pub struct OperationsRow {
    title: String,
    page_name: String,
}

impl OperationsRow {
    /// The title of the row.
    pub closed spec fn row_title(&self) -> Seq<char> {
        self.title@
    }

    /// The name of the page that the row opens.
    pub closed spec fn target_page(&self) -> Seq<char> {
        self.page_name@
    }

    /// A row titled `title` that opens the page `page_name`.
    pub fn new(title: &str, page_name: &str) -> (row: OperationsRow)
        ensures
            row.row_title() == title@,
            row.target_page() == page_name@,
    {
        OperationsRow { title: title.to_owned(), page_name: page_name.to_owned() }
    }

    /// The title of the row.
    pub fn title(&self) -> (title: String)
        ensures
            title@ == self.row_title(),
    {
        self.title.clone()
    }

    /// The name of the page that the row opens.
    pub fn page_name(&self) -> (name: String)
        ensures
            name@ == self.target_page(),
    {
        self.page_name.clone()
    }
}

/// Where a child declared for an operation page goes.
#[derive(Clone, Copy, Debug, PartialEq, Eq, Structural)]
pub enum ChildSlot {
    /// The page itself, for its first child: the frame of the page.
    Frame,
    /// The container of the page, for every later child.
    Container,
}

/// The frame that every operation page shares: a header with a title and
/// subtitle, a container for the content, and the client the page talks to.
pub struct OperationPage {
    title: String,
    subtitle: String,
    container_sensitive: bool,
    has_child: bool,
    has_client: bool,
    error: Option<(String, String, bool)>,
}

impl OperationPage {
    /// The title of the page, as the message that is translated where it
    /// is shown.
    pub closed spec fn page_title(&self) -> Seq<char> {
        self.title@
    }

    /// The subtitle of the page.
    pub closed spec fn page_subtitle(&self) -> Seq<char> {
        self.subtitle@
    }

    /// Whether the content of the page accepts input.
    pub closed spec fn content_sensitive(&self) -> bool {
        self.container_sensitive
    }

    /// Whether the page holds its first child.
    pub closed spec fn holds_child(&self) -> bool {
        self.has_child
    }

    /// Whether the page has a client to talk to.
    pub closed spec fn client_set(&self) -> bool {
        self.has_client
    }

    /// The last error the page reported: the message (before translation),
    /// the details, and whether the details are a message to translate too.
    pub closed spec fn reported_error(&self) -> Option<(Seq<char>, Seq<char>, bool)> {
        match self.error {
            Some((m, d, t)) => Some((m@, d@, t)),
            None => None,
        }
    }

    /// An untitled, sensitive page with no child, no client and no error.
    pub fn new() -> (page: OperationPage)
        ensures
            page.page_title() == Seq::<char>::empty(),
            page.page_subtitle() == Seq::<char>::empty(),
            page.content_sensitive(),
            !page.holds_child(),
            !page.client_set(),
            page.reported_error() is None,
    {
        OperationPage {
            title: String::new(),
            subtitle: String::new(),
            container_sensitive: true,
            has_child: false,
            has_client: false,
            error: None,
        }
    }

    /// Sets the title of the page.
    pub fn set_title(&mut self, title: &str)
        ensures
            final(self).page_title() == title@,
            final(self).page_subtitle() == old(self).page_subtitle(),
            final(self).content_sensitive() == old(self).content_sensitive(),
            final(self).holds_child() == old(self).holds_child(),
            final(self).client_set() == old(self).client_set(),
            final(self).reported_error() == old(self).reported_error(),
    {
        self.title = title.to_owned();
    }

    /// Sets the subtitle of the page.
    pub fn set_subtitle(&mut self, subtitle: &str)
        ensures
            final(self).page_subtitle() == subtitle@,
            final(self).page_title() == old(self).page_title(),
            final(self).content_sensitive() == old(self).content_sensitive(),
            final(self).holds_child() == old(self).holds_child(),
            final(self).client_set() == old(self).client_set(),
            final(self).reported_error() == old(self).reported_error(),
    {
        self.subtitle = subtitle.to_owned();
    }

    /// Gives the page a client to talk to, or takes it away.
    pub fn set_client(&mut self, available: bool)
        ensures
            final(self).client_set() == available,
            final(self).page_title() == old(self).page_title(),
            final(self).page_subtitle() == old(self).page_subtitle(),
            final(self).content_sensitive() == old(self).content_sensitive(),
            final(self).holds_child() == old(self).holds_child(),
            final(self).reported_error() == old(self).reported_error(),
    {
        self.has_client = available;
    }

    /// Whether the page has a client to talk to.
    pub fn has_client(&self) -> (available: bool)
        ensures
            available == self.client_set(),
    {
        self.has_client
    }

    /// Marks the page as busy or not: its content accepts input only when
    /// it is not busy.
    pub fn set_busy(&mut self, busy: bool)
        ensures
            final(self).content_sensitive() == !busy,
            final(self).page_title() == old(self).page_title(),
            final(self).page_subtitle() == old(self).page_subtitle(),
            final(self).holds_child() == old(self).holds_child(),
            final(self).client_set() == old(self).client_set(),
            final(self).reported_error() == old(self).reported_error(),
    {
        self.container_sensitive = !busy;
    }

    /// Whether the content of the page accepts input.
    pub fn is_sensitive(&self) -> (sensitive: bool)
        ensures
            sensitive == self.content_sensitive(),
    {
        self.container_sensitive
    }

    /// Places a child declared for the page: the first goes to the page
    /// itself, every later one to its container.
    pub fn add_child(&mut self) -> (slot: ChildSlot)
        ensures
            slot == (if old(self).holds_child() { ChildSlot::Container } else { ChildSlot::Frame }),
            final(self).holds_child(),
            final(self).page_title() == old(self).page_title(),
            final(self).page_subtitle() == old(self).page_subtitle(),
            final(self).content_sensitive() == old(self).content_sensitive(),
            final(self).client_set() == old(self).client_set(),
            final(self).reported_error() == old(self).reported_error(),
    {
        if self.has_child {
            ChildSlot::Container
        } else {
            self.has_child = true;
            ChildSlot::Frame
        }
    }

    /// Reports an error with its message (translated where it is shown)
    /// and its details, shown as they are.
    pub fn show_error(&mut self, message: &str, details: &str)
        ensures
            final(self).reported_error() == Some((message@, details@, false)),
            final(self).page_title() == old(self).page_title(),
            final(self).page_subtitle() == old(self).page_subtitle(),
            final(self).content_sensitive() == old(self).content_sensitive(),
            final(self).holds_child() == old(self).holds_child(),
            final(self).client_set() == old(self).client_set(),
    {
        self.error = Some((message.to_owned(), details.to_owned(), false));
    }

    /// Reports an error with its message and its details, both translated
    /// where they are shown.
    pub fn show_error_message(&mut self, message: &str, details: &str)
        ensures
            final(self).reported_error() == Some((message@, details@, true)),
            final(self).page_title() == old(self).page_title(),
            final(self).page_subtitle() == old(self).page_subtitle(),
            final(self).content_sensitive() == old(self).content_sensitive(),
            final(self).holds_child() == old(self).holds_child(),
            final(self).client_set() == old(self).client_set(),
    {
        self.error = Some((message.to_owned(), details.to_owned(), true));
    }

    /// The last error the page reported, if any: its message, its details,
    /// and whether the details are a message to translate too.
    pub fn last_error(&self) -> (error: Option<(String, String, bool)>)
        ensures
            match error {
                Some((m, d, t)) => self.reported_error() == Some((m@, d@, t)),
                None => self.reported_error() is None,
            },
    {
        match &self.error {
            Some((m, d, t)) => Some((m.clone(), d.clone(), *t)),
            None => None,
        }
    }

    /// The title of the page.
    pub fn title(&self) -> (title: String)
        ensures
            title@ == self.page_title(),
    {
        self.title.clone()
    }

    /// The subtitle of the page.
    pub fn subtitle(&self) -> (subtitle: String)
        ensures
            subtitle@ == self.page_subtitle(),
    {
        self.subtitle.clone()
    }
}

/// What follows the last `/` of `path`; all of `path` when it holds none.
pub open spec fn last_path_segment(path: Seq<char>) -> Seq<char>
    decreases path.len(),
{
    if path.len() == 0 {
        path
    } else if path.last() == '/' {
        Seq::<char>::empty()
    } else {
        last_path_segment(path.drop_last()).push(path.last())
    }
}

/// The file name a certificate chooser shows for the path of its URI.
pub fn file_label(path: &str) -> (label: String)
    ensures
        label@ == last_path_segment(path@),
{
    let n = path.unicode_len();
    let ghost s = path@;
    let mut i: usize = n;
    assert(s.take(n as int) =~= s);
    assert(last_path_segment(s) + s.subrange(n as int, n as int) =~= last_path_segment(s));
    while i > 0 && path.get_char(i - 1) != '/'
        invariant
            n == s.len(),
            s == path@,
            i <= n,
            last_path_segment(s) == last_path_segment(s.take(i as int)) + s.subrange(i as int, n as int),
        decreases i,
    {
        let ghost t = s.take(i as int);
        assert(t.drop_last() =~= s.take(i - 1));
        assert(s.subrange(i - 1, n as int) =~= seq![t.last()] + s.subrange(i as int, n as int));
        assert(last_path_segment(t) == last_path_segment(t.drop_last()).push(t.last()));
        assert(last_path_segment(t.drop_last()).push(t.last()) + s.subrange(i as int, n as int)
            =~= last_path_segment(t.drop_last()) + s.subrange(i - 1, n as int));
        i = i - 1;
    }
    proof {
        let t = s.take(i as int);
        if i == 0 {
            assert(t =~= Seq::<char>::empty());
        } else {
            assert(t.last() == '/');
        }
        assert(last_path_segment(t) =~= Seq::<char>::empty());
    }
    path.substring_char(i, n).to_owned()
}

/// The last segment of a path holds no `/`.
pub proof fn lemma_last_segment_has_no_slash(path: Seq<char>)
    ensures
        !last_path_segment(path).contains('/'),
    decreases path.len(),
{
    if path.len() > 0 && path.last() != '/' {
        lemma_last_segment_has_no_slash(path.drop_last());
        let r = last_path_segment(path.drop_last());
        assert forall|i: int| 0 <= i < r.push(path.last()).len() implies r.push(path.last())[i] != '/' by {
            if i < r.len() {
                assert(r.push(path.last())[i] == r[i]);
            }
        }
    }
}

/// The last segment of a path ends it, and the path holds a `/` just
/// before it unless the segment is the whole path.
pub proof fn lemma_last_segment_is_suffix(path: Seq<char>)
    ensures
        last_path_segment(path).len() <= path.len(),
        last_path_segment(path) == path.skip(path.len() - last_path_segment(path).len()),
        last_path_segment(path).len() < path.len() ==> path[path.len() - last_path_segment(path).len() - 1] == '/',
    decreases path.len(),
{
    if path.len() == 0 {
        assert(path.skip(0) =~= path);
    } else if path.last() == '/' {
        assert(path.skip(path.len() as int) =~= Seq::<char>::empty());
    } else {
        let p = path.drop_last();
        lemma_last_segment_is_suffix(p);
        let r = last_path_segment(p);
        assert(path.skip(path.len() - (r.len() + 1)) =~= p.skip(p.len() - r.len()).push(path.last()));
        if r.len() < p.len() {
            assert(path[path.len() - (r.len() + 1) - 1] == p[p.len() - r.len() - 1]);
        }
    }
}

/// A path without `/` is its own last segment.
pub proof fn lemma_last_segment_without_slash(path: Seq<char>)
    requires
        !path.contains('/'),
    ensures
        last_path_segment(path) == path,
{
    lemma_last_segment_is_suffix(path);
    if last_path_segment(path).len() < path.len() {
        assert(path.contains('/')) by {
            assert(path[path.len() - last_path_segment(path).len() - 1] == '/');
        }
    }
    assert(path.skip(0) =~= path);
}

/// A field in which the URI of a certificate file is chosen.
pub struct CertChooser {
    uri: String,
}

impl CertChooser {
    /// The URI chosen.
    pub closed spec fn chosen_uri(&self) -> Seq<char> {
        self.uri@
    }

    /// A chooser with no URI.
    pub fn new() -> (chooser: CertChooser)
        ensures
            chooser.chosen_uri() == Seq::<char>::empty(),
    {
        CertChooser { uri: String::new() }
    }

    /// The URI chosen.
    pub fn uri(&self) -> (uri: String)
        ensures
            uri@ == self.chosen_uri(),
    {
        self.uri.clone()
    }

    /// Chooses `uri`.
    pub fn set_uri(&mut self, uri: &str)
        ensures
            final(self).chosen_uri() == uri@,
    {
        self.uri = uri.to_owned();
    }

    /// The tooltip of the label: the URI, or none when no URI is chosen.
    pub fn tooltip(&self) -> (tooltip: Option<String>)
        ensures
            self.chosen_uri().len() == 0 ==> tooltip is None,
            self.chosen_uri().len() > 0 ==> (tooltip matches Some(t) && t@ == self.chosen_uri()),
    {
        if self.uri.as_str().is_empty() {
            None
        } else {
            Some(self.uri.clone())
        }
    }

    /// The text of the label, given the path of the URI when the URI could
    /// be parsed: the file name of the path. When the URI could not be
    /// parsed there is no file name, and the label shows the translation of
    /// `unparsed_label`.
    pub fn label(uri_path: Option<&str>) -> (label: Option<String>)
        ensures
            match uri_path {
                Some(p) => label matches Some(l) && l@ == last_path_segment(p@),
                None => label is None,
            },
    {
        match uri_path {
            Some(p) => Some(file_label(p)),
            None => None,
        }
    }

    /// The message the label shows when the URI could not be parsed, before
    /// translation.
    pub fn unparsed_label() -> (message: &'static str)
        ensures
            message@ == "None"@,
    {
        "None"
    }
}

/// The preferences dialog: the choosers of the root certificate, of the
/// client certificate and of the client key.
pub struct PreferencesDialog {
    pub root_cert_chooser: CertChooser,
    pub client_cert_chooser: CertChooser,
    pub client_key_chooser: CertChooser,
}

impl PreferencesDialog {
    /// A dialog in which nothing is chosen yet.
    pub fn new() -> (dialog: PreferencesDialog)
        ensures
            dialog.root_cert_chooser.chosen_uri() == Seq::<char>::empty(),
            dialog.client_cert_chooser.chosen_uri() == Seq::<char>::empty(),
            dialog.client_key_chooser.chosen_uri() == Seq::<char>::empty(),
    {
        PreferencesDialog {
            root_cert_chooser: CertChooser::new(),
            client_cert_chooser: CertChooser::new(),
            client_key_chooser: CertChooser::new(),
        }
    }

    /// The keys of the connection settings that the choosers are bound to,
    /// in the order root certificate, client certificate, client key.
    pub fn setting_keys() -> (keys: (&'static str, &'static str, &'static str))
        ensures
            keys.0@ == "auth-root-cert-uri"@,
            keys.1@ == "auth-client-cert-uri"@,
            keys.2@ == "auth-client-key-uri"@,
    {
        ("auth-root-cert-uri", "auth-client-cert-uri", "auth-client-key-uri")
    }
}

} // verus!
