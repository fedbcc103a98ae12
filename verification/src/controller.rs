//! The controller: the message taxonomy between presentation and
//! controller, the entry-selection policy, message dispatch, refresh
//! policy, and startup classification of configured servers.
//!
//! Dispatch is a decision function: it reads one inbound message and
//! yields the effects to perform — messages to send, files to touch,
//! fetches to start. The caller runs the effects; everything decided
//! here is verified.

use vstd::prelude::*;
use vstd::string::StringExecFns;

use crate::config::{config_servers_view, upsert_server, upserted, Config};
use crate::errors::{message_spec, OpdsError};
use crate::model::{EntryData, EntryType, EntryV};
use crate::server::{KeyringErrorKind, Server, ServerV};
use crate::text::str_eq;
use crate::urls::{file_path_of, url_to_file_path, UrlBuf};

verus! {

/// What the presentation sends the controller.
#[derive(Debug)]
pub enum ControllerMessage {
    /// An entry of the directory view was selected.
    EntrySelected(EntryType),
    /// Add a remote connection under a tab name, with an optional
    /// password to store first.
    AddConnection(String, Server, Option<String>),
    /// Make another connection the active tab.
    ChangeConnection(String),
    /// Go back on the active connection.
    GoBack(),
    /// Open a local file with the system handler.
    Open(UrlBuf),
    /// Navigate the active connection to an address.
    Navigate(UrlBuf),
    /// Download a file to the download directory.
    Download(UrlBuf),
    /// Fetch and decode the cover image of an entry.
    RequestImage(EntryType),
    /// Rename a file: the full old path, and the new name.
    Rename(String, String),
    /// Delete a file or directory.
    Delete(UrlBuf),
    /// Search the active connection.
    Search(String),
}

#[verifier::external_type_specification]
#[verifier::external_body]
pub struct ExDynamicImage(image::DynamicImage);

/// Whether the bytes decode as an image. Decoding depends on the bytes
/// alone.
pub uninterp spec fn image_decodes(data: Seq<u8>) -> bool;

/// Relies on image::load_from_memory: decodes an image held in bytes;
/// a failure carries the decoder's words.
#[verifier::external_body]
pub(crate) fn decode_image(data: &[u8]) -> (r: Result<image::DynamicImage, String>)
    ensures
        r is Ok <==> image_decodes(data@),
{
    match image::load_from_memory(data) {
        Ok(img) => Ok(img),
        Err(e) => Err(format!("{}", e)),
    }
}

/// What the controller sends the presentation.
#[derive(Debug)]
pub enum UIMessage {
    /// Register a connection in the view.
    AddConnection(String, Server, Option<String>),
    /// Replace the directory view: title, entries, status line.
    UpdateDirectoryView(String, Vec<EntryType>, String),
    /// A modal dialog: title and body.
    ShowInfo(String, String),
    /// A popup menu: title and labelled messages to send back.
    ShowContextMenu(String, Vec<(String, ControllerMessage)>),
    /// Cache a decoded cover image under an entry title.
    StoreImage(String, image::DynamicImage),
    /// Ask the user for a server's password.
    PasswordPrompt(String, Server),
    /// A transient notification: title and body.
    ShowNotification(String, String),
}

/// What selecting an entry yields: a context menu, or a self-addressed
/// navigation.
#[derive(Debug)]
pub enum SelectionOutcome {
    ShowMenu(String, Vec<(String, ControllerMessage)>),
    SelfNavigate(UrlBuf),
}

/// The entry-selection policy. A file opens a menu of Open, Delete and
/// Rename; a directory navigates; an OPDS entry fails on an unsupported
/// acquisition kind, navigates when it links a feed, fails when it
/// offers nothing, and otherwise opens a menu of its downloads.
pub open spec fn selection_matches(item: EntryV, r: Result<SelectionOutcome, OpdsError>) -> bool {
    match item {
        EntryV::File(title, url) => match file_path_of(url) {
            Some(p) => r matches Ok(SelectionOutcome::ShowMenu(t, es)) && t@ == title
                && es@.len() == 3 && es@[0].0@ == "Open"@ && (
            es@[0].1 matches ControllerMessage::Open(u) && u@ == url) && es@[1].0@ == "Delete"@
                && (es@[1].1 matches ControllerMessage::Delete(u) && u@ == url) && es@[2].0@
                == "Rename"@ && (es@[2].1 matches ControllerMessage::Rename(a, b) && a@ == p
                && b@ == p),
            None => r matches Err(e) && e is BadFileUrl,
        },
        EntryV::Directory(_, url) => r matches Ok(SelectionOutcome::SelfNavigate(u)) && u@
            == url,
        EntryV::Opds(d) => if d.unsupported is Some {
            r matches Err(OpdsError::Unsupported(rel)) && rel@ == d.unsupported->0
        } else if d.href is Some {
            r matches Ok(SelectionOutcome::SelfNavigate(u)) && u@ == d.href->0
        } else if d.downloads.len() == 0 {
            r matches Err(e) && e is NoAction
        } else {
            r matches Ok(SelectionOutcome::ShowMenu(t, es)) && t@ == d.title && es@.len()
                == d.downloads.len() && forall|j: int|
                0 <= j < es@.len() ==> (#[trigger] es@[j]).0@ == "Download as "@
                    + d.downloads[j].1 && (es@[j].1 matches ControllerMessage::Download(u) && u@
                    == d.downloads[j].0)
        },
    }
}

/// Decides what selecting an entry does, as `selection_matches`
/// describes.
pub fn entry_selected(item: EntryType) -> (r: Result<SelectionOutcome, OpdsError>)
    ensures
        selection_matches(item@, r),
{
    match item {
        EntryType::File(title, url) => {
            let path = match url_to_file_path(&url) {
                Some(p) => p,
                None => return Err(OpdsError::BadFileUrl),
            };
            let mut es: Vec<(String, ControllerMessage)> = Vec::new();
            es.push(("Open".to_owned(), ControllerMessage::Open(url.dup())));
            es.push(("Delete".to_owned(), ControllerMessage::Delete(url.dup())));
            es.push(("Rename".to_owned(), ControllerMessage::Rename(path.clone(), path)));
            Ok(SelectionOutcome::ShowMenu(title, es))
        },
        EntryType::Directory(_, url) => Ok(SelectionOutcome::SelfNavigate(url)),
        EntryType::OPDSEntry(d) => {
            let ghost dv = d@;
            let EntryData { title, downloads, unsupported, href, .. } = d;
            if let Some(rel) = unsupported {
                return Err(OpdsError::Unsupported(rel));
            }
            if let Some(h) = href {
                return Ok(SelectionOutcome::SelfNavigate(h));
            }
            if downloads.len() == 0 {
                return Err(OpdsError::NoAction);
            }
            let mut es: Vec<(String, ControllerMessage)> = Vec::new();
            let mut j: usize = 0;
            while j < downloads.len()
                invariant
                    j <= downloads@.len(),
                    es@.len() == j,
                    dv.downloads == crate::model::downloads_view(downloads@),
                    forall|m: int|
                        0 <= m < j ==> (#[trigger] es@[m]).0@ == "Download as "@
                            + dv.downloads[m].1 && (
                        es@[m].1 matches ControllerMessage::Download(u) && u@
                            == dv.downloads[m].0),
                decreases downloads@.len() - j,
            {
                let mut label: String = "Download as ".to_owned();
                label.append(downloads[j].1.as_str());
                es.push((label, ControllerMessage::Download(downloads[j].0.dup())));
                j += 1;
            }
            Ok(SelectionOutcome::ShowMenu(title, es))
        },
    }
}

/// Everything a dispatched message asks the caller to do, in order.
#[derive(Debug)]
pub enum Effect {
    /// Send a message to the presentation.
    SendUI(UIMessage),
    /// Send a message back to the controller itself.
    SendSelf(ControllerMessage),
    /// Open a local file with the system handler.
    OpenFile(UrlBuf),
    /// Delete the file or directory at the address.
    DeleteFile(UrlBuf),
    /// Rename a file: the full old path, and the new name.
    RenameFile(String, String),
    /// Navigate the active connection to the address, asynchronously.
    StartNavigate(UrlBuf),
    /// Navigate the active connection to its current address.
    StartNavigateCurrent,
    /// Go back on the active connection.
    StartGoBack,
    /// Download the file at the address.
    StartDownload(UrlBuf),
    /// Fetch and decode the cover image of the titled entry.
    StartImageFetch(String, UrlBuf),
    /// Store the password, open the connection, and register it.
    StartAddConnection(String, Server, Option<String>),
    /// Search the active connection.
    StartSearch(String),
}

/// The effect a selection outcome becomes: showing the menu, or a
/// self-addressed navigation.
pub open spec fn effect_of_outcome(o: SelectionOutcome) -> Effect {
    match o {
        SelectionOutcome::ShowMenu(t, es) => Effect::SendUI(UIMessage::ShowContextMenu(t, es)),
        SelectionOutcome::SelfNavigate(u) => Effect::SendSelf(ControllerMessage::Navigate(u)),
    }
}

/// The frames between two periodic refreshes of a remote tab: a nominal
/// 30 frames a second over five minutes.
pub const REFRESH_PERIOD_FRAMES: u32 = 9000;

/// The controller's own state: the active tab, the configuration, the
/// download directory and the refresh period.
#[derive(Debug)]
pub struct Controller {
    pub current_tab: String,
    pub config: Config,
    pub download_directory: UrlBuf,
    pub refresh_period: u32,
}

impl Controller {
    /// A controller that starts on the local tab.
    pub fn new(config: Config, download_directory: UrlBuf) -> (r: Controller)
        ensures
            r.current_tab@ == "local"@,
            r.config == config,
            r.download_directory == download_directory,
            r.refresh_period == REFRESH_PERIOD_FRAMES,
    {
        Controller {
            current_tab: "local".to_owned(),
            config,
            download_directory,
            refresh_period: REFRESH_PERIOD_FRAMES,
        }
    }

    /// Whether a filesystem event refreshes the view: exactly when the
    /// local tab is active.
    pub fn should_refresh_on_fs_event(&self) -> (r: bool)
        ensures
            r == (self.current_tab@ == "local"@),
    {
        str_eq(self.current_tab.as_str(), "local")
    }

    /// Whether the periodic tick refreshes the view: on each full
    /// period, and exactly when a remote tab is active.
    pub fn should_refresh_on_tick(&self, frame: u32) -> (r: bool)
        ensures
            r == (self.refresh_period > 0 && frame % self.refresh_period == 0
                && self.current_tab@ != "local"@),
    {
        if self.refresh_period == 0 {
            return false;
        }
        frame % self.refresh_period == 0 && !str_eq(self.current_tab.as_str(), "local")
    }

    /// Makes `id` the active tab. The caller then navigates that
    /// connection to its current address, as the dispatch of a
    /// `ChangeConnection` message asks.
    pub fn change_connection(&mut self, id: String)
        ensures
            final(self).current_tab == id,
            final(self).config == old(self).config,
            final(self).download_directory == old(self).download_directory,
            final(self).refresh_period == old(self).refresh_period,
    {
        self.current_tab = id;
    }

    /// Binds `name` to `server` in the configuration's server list, so
    /// that the caller can persist the configuration.
    pub fn update_config(&mut self, name: &str, server: &Server)
        ensures
            final(self).current_tab == old(self).current_tab,
            final(self).download_directory == old(self).download_directory,
            final(self).refresh_period == old(self).refresh_period,
            final(self).config.download_directory == old(self).config.download_directory,
            final(self).config.servers matches Some(v) && upserted(
                config_servers_view(old(self).config),
                crate::config::servers_view(v@),
                name@,
                server@,
            ),
    {
        let updated: Vec<(String, Server)> = match &self.config.servers {
            Some(v) => upsert_server(v, name, server),
            None => {
                let mut nv: Vec<(String, Server)> = Vec::new();
                nv.push((name.to_owned(), server.dup()));
                proof {
                    assert(crate::config::servers_view(nv@) =~= Seq::empty().push(
                        (name@, server@),
                    ));
                }
                nv
            },
        };
        self.config.servers = Some(updated);
    }

    /// Dispatches one inbound message to the effects it asks for.
    /// Selecting an entry follows the selection policy; changing the
    /// connection sets the active tab; everything else maps to its
    /// effect, a download with its notification beside it.
    pub fn handle_message(&mut self, msg: ControllerMessage) -> (r: Result<Vec<Effect>, OpdsError>)
        ensures
            final(self).config == old(self).config,
            final(self).download_directory == old(self).download_directory,
            final(self).refresh_period == old(self).refresh_period,
            (msg matches ControllerMessage::ChangeConnection(n) ==> final(self).current_tab == n),
            (!(msg matches ControllerMessage::ChangeConnection(_)) ==> final(self).current_tab
                == old(self).current_tab),
            match msg {
                ControllerMessage::EntrySelected(item) => match r {
                    Ok(es) => es@.len() == 1 && exists|o: SelectionOutcome|
                        selection_matches(item@, Ok(o)) && es@[0] == effect_of_outcome(o),
                    Err(e) => selection_matches(item@, Err(e)),
                },
                ControllerMessage::AddConnection(n, s, p) => r matches Ok(es) && es@ =~= seq![
                    Effect::StartAddConnection(n, s, p),
                ],
                ControllerMessage::ChangeConnection(_) => r matches Ok(es) && es@ =~= seq![
                    Effect::StartNavigateCurrent,
                ],
                ControllerMessage::GoBack() => r matches Ok(es) && es@ =~= seq![
                    Effect::StartGoBack,
                ],
                ControllerMessage::Open(p) => r matches Ok(es) && es@ =~= seq![
                    Effect::OpenFile(p),
                ],
                ControllerMessage::Navigate(p) => r matches Ok(es) && es@ =~= seq![
                    Effect::StartNavigate(p),
                ],
                ControllerMessage::Download(url) => r matches Ok(es) && es@.len() == 2 && es@[0]
                    == Effect::StartDownload(url) && (
                es@[1] matches Effect::SendUI(UIMessage::ShowNotification(t, b)) && t@
                    == "Starting download"@ && b@ == url@),
                ControllerMessage::RequestImage(entry) => match entry@ {
                    EntryV::Opds(d) => if d.image is Some {
                        r matches Ok(es) && es@.len() == 1 && (
                        es@[0] matches Effect::StartImageFetch(t, u) && t@ == d.title && u@
                            == d.image->0)
                    } else {
                        r matches Ok(es) && es@.len() == 0
                    },
                    _ => r matches Ok(es) && es@.len() == 0,
                },
                ControllerMessage::Rename(a, b) => r matches Ok(es) && es@ =~= seq![
                    Effect::RenameFile(a, b),
                ],
                ControllerMessage::Delete(p) => r matches Ok(es) && es@ =~= seq![
                    Effect::DeleteFile(p),
                ],
                ControllerMessage::Search(q) => r matches Ok(es) && es@ =~= seq![
                    Effect::StartSearch(q),
                ],
            },
    {
        match msg {
            ControllerMessage::EntrySelected(item) => {
                let ghost iv = item@;
                match entry_selected(item) {
                    Err(e) => Err(e),
                    Ok(o) => {
                        let ghost ow = o;
                        let eff = match o {
                            SelectionOutcome::ShowMenu(t, es) => Effect::SendUI(
                                UIMessage::ShowContextMenu(t, es),
                            ),
                            SelectionOutcome::SelfNavigate(u) => Effect::SendSelf(
                                ControllerMessage::Navigate(u),
                            ),
                        };
                        let mut out: Vec<Effect> = Vec::new();
                        out.push(eff);
                        proof {
                            assert(selection_matches(iv, Ok(ow)) && out@[0] == effect_of_outcome(
                                ow,
                            ));
                        }
                        Ok(out)
                    },
                }
            },
            ControllerMessage::AddConnection(n, s, p) => {
                let mut out: Vec<Effect> = Vec::new();
                out.push(Effect::StartAddConnection(n, s, p));
                Ok(out)
            },
            ControllerMessage::ChangeConnection(n) => {
                self.change_connection(n);
                let mut out: Vec<Effect> = Vec::new();
                out.push(Effect::StartNavigateCurrent);
                Ok(out)
            },
            ControllerMessage::GoBack() => {
                let mut out: Vec<Effect> = Vec::new();
                out.push(Effect::StartGoBack);
                Ok(out)
            },
            ControllerMessage::Open(p) => {
                let mut out: Vec<Effect> = Vec::new();
                out.push(Effect::OpenFile(p));
                Ok(out)
            },
            ControllerMessage::Navigate(p) => {
                let mut out: Vec<Effect> = Vec::new();
                out.push(Effect::StartNavigate(p));
                Ok(out)
            },
            ControllerMessage::Download(url) => {
                let text: String = url.as_str().to_owned();
                let mut out: Vec<Effect> = Vec::new();
                out.push(Effect::StartDownload(url));
                out.push(
                    Effect::SendUI(
                        UIMessage::ShowNotification("Starting download".to_owned(), text),
                    ),
                );
                Ok(out)
            },
            ControllerMessage::RequestImage(entry) => {
                match entry {
                    EntryType::OPDSEntry(d) => {
                        let EntryData { title, image, .. } = d;
                        match image {
                            Some(img) => {
                                let mut out: Vec<Effect> = Vec::new();
                                out.push(Effect::StartImageFetch(title, img));
                                Ok(out)
                            },
                            None => Ok(Vec::new()),
                        }
                    },
                    _ => Ok(Vec::new()),
                }
            },
            ControllerMessage::Rename(a, b) => {
                let mut out: Vec<Effect> = Vec::new();
                out.push(Effect::RenameFile(a, b));
                Ok(out)
            },
            ControllerMessage::Delete(p) => {
                let mut out: Vec<Effect> = Vec::new();
                out.push(Effect::DeleteFile(p));
                Ok(out)
            },
            ControllerMessage::Search(q) => {
                let mut out: Vec<Effect> = Vec::new();
                out.push(Effect::StartSearch(q));
                Ok(out)
            },
        }
    }
}

/// What to do for one configured server after its password lookup: add
/// the connection when the lookup answered — a missing username counts
/// as answered — prompt the user when the store holds no entry, and
/// stop on any other store failure.
#[derive(Debug)]
pub enum ConnectPlan {
    Add(ControllerMessage),
    Prompt(UIMessage),
    Fatal(OpdsError),
}

/// Classifies one configured server by its password lookup, as
/// `ConnectPlan` describes.
pub fn classify_server(name: &str, server: &Server, lookup: Result<
    Option<String>,
    KeyringErrorKind,
>) -> (r: ConnectPlan)
    ensures
        match lookup {
            Ok(pwd) => r matches ConnectPlan::Add(m) && (
            m matches ControllerMessage::AddConnection(n, s, p) && n@ == name@ && s@ == server@
                && p == pwd),
            Err(KeyringErrorKind::NoEntry) => r matches ConnectPlan::Prompt(m) && (
            m matches UIMessage::PasswordPrompt(n, s) && n@ == name@ && s@ == server@),
            Err(KeyringErrorKind::Other(w)) => r matches ConnectPlan::Fatal(e) && (
            e matches OpdsError::KeyringFailure(t) && t@ == w@),
        },
{
    match lookup {
        Ok(pwd) => ConnectPlan::Add(
            ControllerMessage::AddConnection(name.to_owned(), server.dup(), pwd),
        ),
        Err(KeyringErrorKind::NoEntry) => ConnectPlan::Prompt(
            UIMessage::PasswordPrompt(name.to_owned(), server.dup()),
        ),
        Err(KeyringErrorKind::Other(w)) => ConnectPlan::Fatal(OpdsError::KeyringFailure(w)),
    }
}

/// The startup plan answers for the configured servers, in order: each
/// server contributed exactly one message — an `AddConnection` when its
/// password lookup answered (with whatever password came back), or a
/// `PasswordPrompt` when the store held no entry — and nothing else
/// stands in either list.
pub open spec fn connect_plan_matches(
    servers: Seq<(Seq<char>, ServerV)>,
    adds: Seq<ControllerMessage>,
    prompts: Seq<UIMessage>,
) -> bool
    decreases servers.len(),
{
    if servers.len() == 0 {
        adds.len() == 0 && prompts.len() == 0
    } else {
        ||| (adds.len() > 0 && (adds[0] matches ControllerMessage::AddConnection(n, s, _) && n@
            == servers[0].0 && s@ == servers[0].1) && connect_plan_matches(
            servers.skip(1),
            adds.skip(1),
            prompts,
        ))
        ||| (prompts.len() > 0 && (prompts[0] matches UIMessage::PasswordPrompt(n, s) && n@
            == servers[0].0 && s@ == servers[0].1) && connect_plan_matches(
            servers.skip(1),
            adds,
            prompts.skip(1),
        ))
    }
}

proof fn lemma_plan_push_add(
    servers: Seq<(Seq<char>, ServerV)>,
    adds: Seq<ControllerMessage>,
    prompts: Seq<UIMessage>,
    name: Seq<char>,
    srv: ServerV,
    m: ControllerMessage,
)
    requires
        connect_plan_matches(servers, adds, prompts),
        m matches ControllerMessage::AddConnection(n, s, _) && n@ == name && s@ == srv,
    ensures
        connect_plan_matches(servers.push((name, srv)), adds.push(m), prompts),
    decreases servers.len(),
{
    if servers.len() == 0 {
        assert(servers.push((name, srv))[0] == (name, srv));
        assert(adds.push(m)[0] == m);
        assert(servers.push((name, srv)).skip(1) =~= Seq::<(Seq<char>, ServerV)>::empty());
        assert(adds.push(m).skip(1) =~= Seq::<ControllerMessage>::empty());
        assert(connect_plan_matches(
            servers.push((name, srv)).skip(1),
            adds.push(m).skip(1),
            prompts,
        ));
    } else {
        assert(servers.push((name, srv))[0] == servers[0]);
        if adds.len() > 0 && (adds[0] matches ControllerMessage::AddConnection(n, s, _) && n@
            == servers[0].0 && s@ == servers[0].1) && connect_plan_matches(
            servers.skip(1),
            adds.skip(1),
            prompts,
        ) {
            lemma_plan_push_add(servers.skip(1), adds.skip(1), prompts, name, srv, m);
            assert(servers.push((name, srv)).skip(1) =~= servers.skip(1).push((name, srv)));
            assert(adds.push(m).skip(1) =~= adds.skip(1).push(m));
            assert(adds.push(m)[0] == adds[0]);
        } else {
            lemma_plan_push_add(servers.skip(1), adds, prompts.skip(1), name, srv, m);
            assert(servers.push((name, srv)).skip(1) =~= servers.skip(1).push((name, srv)));
        }
    }
}

proof fn lemma_plan_push_prompt(
    servers: Seq<(Seq<char>, ServerV)>,
    adds: Seq<ControllerMessage>,
    prompts: Seq<UIMessage>,
    name: Seq<char>,
    srv: ServerV,
    m: UIMessage,
)
    requires
        connect_plan_matches(servers, adds, prompts),
        m matches UIMessage::PasswordPrompt(n, s) && n@ == name && s@ == srv,
    ensures
        connect_plan_matches(servers.push((name, srv)), adds, prompts.push(m)),
    decreases servers.len(),
{
    if servers.len() == 0 {
        assert(servers.push((name, srv))[0] == (name, srv));
        assert(prompts.push(m)[0] == m);
        assert(servers.push((name, srv)).skip(1) =~= Seq::<(Seq<char>, ServerV)>::empty());
        assert(prompts.push(m).skip(1) =~= Seq::<UIMessage>::empty());
        assert(connect_plan_matches(
            servers.push((name, srv)).skip(1),
            adds,
            prompts.push(m).skip(1),
        ));
    } else {
        assert(servers.push((name, srv))[0] == servers[0]);
        if adds.len() > 0 && (adds[0] matches ControllerMessage::AddConnection(n, s, _) && n@
            == servers[0].0 && s@ == servers[0].1) && connect_plan_matches(
            servers.skip(1),
            adds.skip(1),
            prompts,
        ) {
            lemma_plan_push_prompt(servers.skip(1), adds.skip(1), prompts, name, srv, m);
            assert(servers.push((name, srv)).skip(1) =~= servers.skip(1).push((name, srv)));
        } else {
            lemma_plan_push_prompt(servers.skip(1), adds, prompts.skip(1), name, srv, m);
            assert(servers.push((name, srv)).skip(1) =~= servers.skip(1).push((name, srv)));
            assert(prompts.push(m).skip(1) =~= prompts.skip(1).push(m));
            assert(prompts.push(m)[0] == prompts[0]);
        }
    }
}

impl Controller {
    /// Walks the configured servers, looks each password up, and splits
    /// them into the connections to add, in order, and the password
    /// prompts to show after them, one message per server as
    /// `connect_plan_matches` describes; fails on the first
    /// credential-store failure other than a missing entry. Which way
    /// each server goes is `classify_server`'s contract; what the store
    /// answers is the machine's.
    pub fn connect_to_servers(&self) -> (r: Result<
        (Vec<ControllerMessage>, Vec<UIMessage>),
        OpdsError,
    >)
        ensures
            r matches Ok((adds, prompts)) ==> (forall|j: int|
                0 <= j < adds@.len() ==> (#[trigger] adds@[j]) matches
                    ControllerMessage::AddConnection(_, _, _)) && (forall|j: int|
                0 <= j < prompts@.len() ==> (#[trigger] prompts@[j]) matches
                    UIMessage::PasswordPrompt(_, _)),
            match self.config.servers {
                Some(sv) => r matches Ok((adds, prompts)) ==> connect_plan_matches(
                    crate::config::servers_view(sv@),
                    adds@,
                    prompts@,
                ),
                None => r matches Ok((adds, prompts)) && adds@.len() == 0 && prompts@.len()
                    == 0,
            },
    {
        let mut adds: Vec<ControllerMessage> = Vec::new();
        let mut prompts: Vec<UIMessage> = Vec::new();
        match &self.config.servers {
            None => Ok((adds, prompts)),
            Some(servers) => {
                let ghost sv = crate::config::servers_view(servers@);
                let mut i: usize = 0;
                proof {
                    assert(sv.take(0) =~= Seq::<(Seq<char>, ServerV)>::empty());
                }
                while i < servers.len()
                    invariant
                        self.config.servers is Some,
                        self.config.servers->0 == *servers,
                        sv == crate::config::servers_view(servers@),
                        i <= servers@.len(),
                        sv.len() == servers@.len(),
                        connect_plan_matches(sv.take(i as int), adds@, prompts@),
                        forall|j: int|
                            0 <= j < adds@.len() ==> (#[trigger] adds@[j]) matches
                                ControllerMessage::AddConnection(_, _, _),
                        forall|j: int|
                            0 <= j < prompts@.len() ==> (#[trigger] prompts@[j]) matches
                                UIMessage::PasswordPrompt(_, _),
                    decreases servers@.len() - i,
                {
                    let (name, server) = (&servers[i].0, &servers[i].1);
                    assert(sv[i as int] == (name@, server@));
                    let lookup = server.get_password();
                    let ghost pre_adds = adds@;
                    let ghost pre_prompts = prompts@;
                    match classify_server(name.as_str(), server, lookup) {
                        ConnectPlan::Add(m) => {
                            proof {
                                lemma_plan_push_add(
                                    sv.take(i as int),
                                    pre_adds,
                                    pre_prompts,
                                    sv[i as int].0,
                                    sv[i as int].1,
                                    m,
                                );
                                assert(sv.take(i + 1) =~= sv.take(i as int).push(sv[i as int]));
                            }
                            adds.push(m);
                        },
                        ConnectPlan::Prompt(m) => {
                            proof {
                                lemma_plan_push_prompt(
                                    sv.take(i as int),
                                    pre_adds,
                                    pre_prompts,
                                    sv[i as int].0,
                                    sv[i as int].1,
                                    m,
                                );
                                assert(sv.take(i + 1) =~= sv.take(i as int).push(sv[i as int]));
                            }
                            prompts.push(m);
                        },
                        ConnectPlan::Fatal(e) => return Err(e),
                    }
                    i += 1;
                }
                assert(sv.take(sv.len() as int) =~= sv);
                Ok((adds, prompts))
            },
        }
    }
}

/// The dialog shown when a dispatch fails.
pub fn error_info(e: &OpdsError) -> (r: UIMessage)
    ensures
        r matches UIMessage::ShowInfo(t, b) && t@ == "Error"@ && b@ == message_spec(*e),
{
    UIMessage::ShowInfo("Error".to_owned(), e.message())
}

/// The view shown while a navigation loads.
pub fn loading_view(url: &UrlBuf) -> (r: UIMessage)
    ensures
        r matches UIMessage::UpdateDirectoryView(t, es, s) && t@ == url@ && es@.len() == 0 && s@
            == "Loading..."@,
{
    UIMessage::UpdateDirectoryView(url.as_str().to_owned(), Vec::new(), "Loading...".to_owned())
}

/// The view shown when a navigation finished: the entries on success,
/// an empty list with the failure's words otherwise.
pub fn nav_result_view(addr: &UrlBuf, outcome: Result<Vec<EntryType>, OpdsError>) -> (r:
    UIMessage)
    ensures
        match outcome {
            Ok(v) => r matches UIMessage::UpdateDirectoryView(t, es, s) && t@ == addr@ && es == v
                && s@ == ""@,
            Err(e) => r matches UIMessage::UpdateDirectoryView(t, es, s) && t@ == addr@
                && es@.len() == 0 && s@ == "Load failed: "@ + message_spec(e),
        },
{
    match outcome {
        Ok(v) => UIMessage::UpdateDirectoryView(addr.as_str().to_owned(), v, "".to_owned()),
        Err(e) => {
            let mut s: String = "Load failed: ".to_owned();
            let m = e.message();
            s.append(m.as_str());
            UIMessage::UpdateDirectoryView(addr.as_str().to_owned(), Vec::new(), s)
        },
    }
}

/// The view shown after going back: the previous page, titled by its
/// address.
pub fn back_result_view(addr: &UrlBuf, entries: Vec<EntryType>) -> (r: UIMessage)
    ensures
        r matches UIMessage::UpdateDirectoryView(t, es, s) && t@ == addr@ && es == entries && s@
            == ""@,
{
    UIMessage::UpdateDirectoryView(addr.as_str().to_owned(), entries, "".to_owned())
}

/// The view shown with a search's results.
pub fn search_result_view(query: &str, entries: Vec<EntryType>) -> (r: UIMessage)
    ensures
        r matches UIMessage::UpdateDirectoryView(t, es, s) && t@ == "Search results for "@
            + query@ && es == entries && s@ == ""@,
{
    let mut t: String = "Search results for ".to_owned();
    t.append(query);
    UIMessage::UpdateDirectoryView(t, entries, "".to_owned())
}

/// The view shown by a refresh, stamped with the time the caller gives.
pub fn refresh_view(addr: &UrlBuf, entries: Vec<EntryType>, when: &str) -> (r: UIMessage)
    ensures
        r matches UIMessage::UpdateDirectoryView(t, es, s) && t@ == addr@ && es == entries && s@
            == "Updated "@ + when@,
{
    let mut s: String = "Updated ".to_owned();
    s.append(when);
    UIMessage::UpdateDirectoryView(addr.as_str().to_owned(), entries, s)
}

/// The notification shown when a download finished and was saved.
pub fn download_done_notification(fname: &str) -> (r: UIMessage)
    ensures
        r matches UIMessage::ShowNotification(t, b) && t@ == "Attention"@ && b@ == "File "@
            + fname@ + " finished downloading"@,
{
    let mut b: String = "File ".to_owned();
    b.append(fname);
    b.append(" finished downloading");
    UIMessage::ShowNotification("Attention".to_owned(), b)
}

/// The dialog shown when a download failed.
pub fn download_failed_info(url: &UrlBuf, words: &str) -> (r: UIMessage)
    ensures
        r matches UIMessage::ShowInfo(t, b) && t@ == "Error"@ && b@ == "Download from "@ + url@
            + " failed: "@ + words@,
{
    let mut b: String = "Download from ".to_owned();
    b.append(url.as_str());
    b.append(" failed: ");
    b.append(words);
    UIMessage::ShowInfo("Error".to_owned(), b)
}

/// Decodes fetched cover bytes for the presentation's image store:
/// succeeds exactly when the bytes decode as an image, and fails with
/// the decoder's words otherwise.
pub fn decode_for_entry(title: String, data: &[u8]) -> (r: Result<UIMessage, OpdsError>)
    ensures
        r is Ok <==> image_decodes(data@),
        r matches Ok(m) ==> (m matches UIMessage::StoreImage(t, _) && t@ == title@),
        r matches Err(e) ==> e is ImageDecode,
{
    match decode_image(data) {
        Ok(img) => Ok(UIMessage::StoreImage(title, img)),
        Err(w) => Err(OpdsError::ImageDecode(w)),
    }
}

} // verus!
