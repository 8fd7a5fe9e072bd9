//! One connection, from the request line to the close, as a state machine.
//!
//! The caller performs each action and hands back what happened as an
//! event. The machine decides what to do next.

use vstd::prelude::*;
use vstd::string::*;
use crate::menu::{menu_text, ItemType};
use crate::selector::{trim_selector, trimmed};
use crate::server::{
    crlf, is_root_request, item_views, lemma_constants, lemma_crlf_is_blank, map_file_name,
    resolved, typed_entries, DirItem, DirItemView, GopherServer, ResolvedPath, ResolvedPathView,
    ServerView, MAP_FILE_NAME,
};

verus! {

/// How far the answer to a resolved path has come.
#[derive(Clone, Copy, Debug, PartialEq, Eq, Structural)]
pub enum ServeStage {
    /// Asked whether the directory's menu file exists.
    ProbeMenu,
    /// Asked for the directory's listing.
    ListDirectory,
    /// Asked for the menu file to be written.
    WriteMenu,
    /// Asked for a file's bytes to be sent.
    Transmit,
}

/// The state of a connection.
#[derive(Clone, Debug, PartialEq, Eq)]
pub enum ConnState {
    /// Waiting for the request line.
    AwaitRequestLine,
    /// Waiting to learn whether the selector names a directory.
    Resolving { line: String },
    /// Answering with the directory or the file at `path`.
    Serving { stage: ServeStage, path: String },
    /// Finished; `failed` where an error ended it.
    Done { failed: bool },
}

/// A connection's state as the contracts see it.
pub enum ConnStateView {
    AwaitRequestLine,
    Resolving { line: Seq<char> },
    Serving { stage: ServeStage, path: Seq<char> },
    Done { failed: bool },
}

impl View for ConnState {
    type V = ConnStateView;

    open spec fn view(&self) -> ConnStateView {
        match self {
            ConnState::AwaitRequestLine => ConnStateView::AwaitRequestLine,
            ConnState::Resolving { line } => ConnStateView::Resolving { line: line@ },
            ConnState::Serving { stage, path } => ConnStateView::Serving {
                stage: *stage,
                path: path@,
            },
            ConnState::Done { failed } => ConnStateView::Done { failed: *failed },
        }
    }
}

/// What the caller reports back.
#[derive(Clone, Debug, PartialEq, Eq)]
pub enum Event {
    /// The request line, terminator included.
    Line(String),
    /// The answer to a question about the file system.
    Probed(bool),
    /// The entries of the directory that could be read.
    Listed(Vec<DirItem>),
    /// The action was carried out.
    Completed,
    /// The action failed.
    Failed,
}

/// An event as the contracts see it.
pub enum EventView {
    Line(Seq<char>),
    Probed(bool),
    Listed(Seq<DirItemView>),
    Completed,
    Failed,
}

impl View for Event {
    type V = EventView;

    open spec fn view(&self) -> EventView {
        match self {
            Event::Line(line) => EventView::Line(line@),
            Event::Probed(answer) => EventView::Probed(*answer),
            Event::Listed(items) => EventView::Listed(item_views(items@)),
            Event::Completed => EventView::Completed,
            Event::Failed => EventView::Failed,
        }
    }
}

/// What the caller is to do.
#[derive(Clone, Debug, PartialEq, Eq)]
pub enum Action {
    /// Read one line from the connection; answer with `Line`.
    ReadLine,
    /// Say whether `path` is an existing directory; answer with `Probed`.
    ProbeDirectory { path: String },
    /// Say whether the file `name` exists in `dir`; answer with `Probed`.
    ProbeMenuFile { dir: String, name: String },
    /// List the entries of `dir`; answer with `Listed`.
    ListDirectory { dir: String },
    /// Create or truncate the file `name` in `dir` and write `content` to it.
    WriteMenuFile { dir: String, name: String, content: String },
    /// Send the bytes of the file `name` in `dir`.
    SendMenuFile { dir: String, name: String },
    /// Send the bytes of the file at `path`.
    SendFile { path: String },
    /// Drop the connection.
    Close,
}

/// An action as the contracts see it.
pub enum ActionView {
    ReadLine,
    ProbeDirectory { path: Seq<char> },
    ProbeMenuFile { dir: Seq<char>, name: Seq<char> },
    ListDirectory { dir: Seq<char> },
    WriteMenuFile { dir: Seq<char>, name: Seq<char>, content: Seq<char> },
    SendMenuFile { dir: Seq<char>, name: Seq<char> },
    SendFile { path: Seq<char> },
    Close,
}

impl View for Action {
    type V = ActionView;

    open spec fn view(&self) -> ActionView {
        match self {
            Action::ReadLine => ActionView::ReadLine,
            Action::ProbeDirectory { path } => ActionView::ProbeDirectory { path: path@ },
            Action::ProbeMenuFile { dir, name } => ActionView::ProbeMenuFile {
                dir: dir@,
                name: name@,
            },
            Action::ListDirectory { dir } => ActionView::ListDirectory { dir: dir@ },
            Action::WriteMenuFile { dir, name, content } => ActionView::WriteMenuFile {
                dir: dir@,
                name: name@,
                content: content@,
            },
            Action::SendMenuFile { dir, name } => ActionView::SendMenuFile {
                dir: dir@,
                name: name@,
            },
            Action::SendFile { path } => ActionView::SendFile { path: path@ },
            Action::Close => ActionView::Close,
        }
    }
}

/// What happened to the listener.
#[derive(Clone, Copy, Debug, PartialEq, Eq, Structural)]
pub enum ListenerEvent {
    /// The address could not be bound.
    BindFailed,
    /// A connection could not be accepted.
    AcceptFailed,
    /// A connection was handled to its end; `failed` where an error ended it.
    ConnectionClosed { failed: bool },
}

/// What the listener does next.
#[derive(Clone, Copy, Debug, PartialEq, Eq, Structural)]
pub enum ListenerAction {
    /// Accept the next connection, after reporting the error if `report`.
    AcceptNext { report: bool },
    /// Give up and end the process with the error.
    Terminate,
}

/// The end of a connection.
pub open spec fn closed(failed: bool) -> (ConnStateView, ActionView) {
    (ConnStateView::Done { failed }, ActionView::Close)
}

/// The action that sends the menu file of `dir`.
pub open spec fn send_menu(dir: Seq<char>) -> ActionView {
    ActionView::SendMenuFile { dir, name: map_file_name() }
}

/// The first step of a directory's answer: ask for its menu file, the file
/// of the fixed name in the directory.
pub open spec fn menu_start(dir: Seq<char>) -> (ConnStateView, ActionView) {
    (
        ConnStateView::Serving { stage: ServeStage::ProbeMenu, path: dir },
        ActionView::ProbeMenuFile { dir, name: map_file_name() },
    )
}

/// The first step of the answer to a resolved path: a directory is answered
/// with its menu, anything else with the bytes at the path.
pub open spec fn serve_start(target: ResolvedPathView) -> (ConnStateView, ActionView) {
    match target.kind {
        ItemType::Directory => menu_start(target.path),
        ItemType::File => (
            ConnStateView::Serving { stage: ServeStage::Transmit, path: target.path },
            ActionView::SendFile { path: target.path },
        ),
    }
}

/// What follows the request line: a root request is answered at once with
/// the root's menu, for any other the selector is probed first.
pub open spec fn after_line(cfg: ServerView, line: Seq<char>) -> (ConnStateView, ActionView) {
    if is_root_request(line) {
        serve_start(resolved(cfg, line, true))
    } else {
        (ConnStateView::Resolving { line }, ActionView::ProbeDirectory { path: trimmed(line) })
    }
}

/// What follows the answer on the menu file: an existing one is sent as it
/// is, a missing one is made from the directory's listing first.
pub open spec fn after_menu_probe(dir: Seq<char>, exists: bool) -> (ConnStateView, ActionView) {
    if exists {
        (
            ConnStateView::Serving { stage: ServeStage::Transmit, path: dir },
            send_menu(dir),
        )
    } else {
        (
            ConnStateView::Serving { stage: ServeStage::ListDirectory, path: dir },
            ActionView::ListDirectory { dir },
        )
    }
}

/// What follows the listing: the menu is written to the menu file.
pub open spec fn after_listing(cfg: ServerView, dir: Seq<char>, items: Seq<DirItemView>) -> (
    ConnStateView,
    ActionView,
) {
    (
        ConnStateView::Serving { stage: ServeStage::WriteMenu, path: dir },
        ActionView::WriteMenuFile {
            dir,
            name: map_file_name(),
            content: menu_text(typed_entries(items, cfg)),
        },
    )
}

/// The machine: the next state and the action for every state and event.
/// A failure, or an event that the state did not ask for, ends the
/// connection as failed. A finished connection stays as it is.
pub open spec fn next_step(cfg: ServerView, state: ConnStateView, event: EventView) -> (
    ConnStateView,
    ActionView,
) {
    match state {
        ConnStateView::AwaitRequestLine => match event {
            EventView::Line(line) => after_line(cfg, line),
            _ => closed(true),
        },
        ConnStateView::Resolving { line } => match event {
            EventView::Probed(is_dir) => serve_start(resolved(cfg, line, is_dir)),
            _ => closed(true),
        },
        ConnStateView::Serving { stage, path } => match (stage, event) {
            (ServeStage::ProbeMenu, EventView::Probed(exists)) => after_menu_probe(path, exists),
            (ServeStage::ListDirectory, EventView::Listed(items)) => after_listing(
                cfg,
                path,
                items,
            ),
            (ServeStage::WriteMenu, EventView::Completed) => (
                ConnStateView::Serving { stage: ServeStage::Transmit, path },
                send_menu(path),
            ),
            (ServeStage::Transmit, EventView::Completed) => closed(false),
            _ => closed(true),
        },
        ConnStateView::Done { failed } => closed(failed),
    }
}

/// An upper bound on the actions that a connection in `state` still asks for
/// before it closes.
pub open spec fn steps_left(state: ConnStateView) -> nat {
    match state {
        ConnStateView::AwaitRequestLine => 6,
        ConnStateView::Resolving { .. } => 5,
        ConnStateView::Serving { stage: ServeStage::ProbeMenu, .. } => 4,
        ConnStateView::Serving { stage: ServeStage::ListDirectory, .. } => 3,
        ConnStateView::Serving { stage: ServeStage::WriteMenu, .. } => 2,
        ConnStateView::Serving { stage: ServeStage::Transmit, .. } => 1,
        ConnStateView::Done { .. } => 0,
    }
}

/// What the listener does after `event`: only a failure to bind ends it.
pub open spec fn listener_next(event: ListenerEvent) -> ListenerAction {
    match event {
        ListenerEvent::BindFailed => ListenerAction::Terminate,
        ListenerEvent::AcceptFailed => ListenerAction::AcceptNext { report: true },
        ListenerEvent::ConnectionClosed { failed } => ListenerAction::AcceptNext { report: failed },
    }
}

/// Every step brings a connection nearer to its end, whatever happens: a
/// connection is closed after at most six actions, and it asks to be closed
/// exactly when it is done.
pub proof fn lemma_every_step_advances(cfg: ServerView, state: ConnStateView, event: EventView)
    ensures
        !(state is Done) ==> steps_left(next_step(cfg, state, event).0) < steps_left(state),
        state is Done ==> next_step(cfg, state, event).0 == state,
        next_step(cfg, state, event).0 is Done <==> next_step(cfg, state, event).1 is Close,
{
}

/// A menu file that exists is sent as it is: the directory is not listed
/// and the file is not written again.
pub proof fn lemma_existing_menu_is_reused(cfg: ServerView, dir: Seq<char>)
    ensures
        next_step(
            cfg,
            ConnStateView::Serving { stage: ServeStage::ProbeMenu, path: dir },
            EventView::Probed(true),
        ) == (
            ConnStateView::Serving { stage: ServeStage::Transmit, path: dir },
            send_menu(dir),
        ),
        next_step(
            cfg,
            ConnStateView::Serving { stage: ServeStage::Transmit, path: dir },
            EventView::Completed,
        ) == closed(false),
{
}

/// A menu file that is missing is made from the directory's listing, with a
/// line for each item whose type is known and the closing line, and then
/// sent as an existing one is.
pub proof fn lemma_missing_menu_is_generated(
    cfg: ServerView,
    dir: Seq<char>,
    items: Seq<DirItemView>,
)
    ensures
        ({
            let (listing, list) = next_step(
                cfg,
                ConnStateView::Serving { stage: ServeStage::ProbeMenu, path: dir },
                EventView::Probed(false),
            );
            let (writing, write) = next_step(cfg, listing, EventView::Listed(items));
            let (sending, send) = next_step(cfg, writing, EventView::Completed);
            &&& list == ActionView::ListDirectory { dir }
            &&& write == ActionView::WriteMenuFile {
                dir,
                name: map_file_name(),
                content: menu_text(typed_entries(items, cfg)),
            }
            &&& (sending, send) == next_step(
                cfg,
                ConnStateView::Serving { stage: ServeStage::ProbeMenu, path: dir },
                EventView::Probed(true),
            )
        }),
{
}

/// The bare terminator is answered as the root directory's own selector is,
/// where the root is a directory: both lead to the first step of the root's
/// menu, the one at once, the other once its selector was probed.
pub proof fn lemma_empty_request_serves_root(cfg: ServerView, line: Seq<char>)
    requires
        trimmed(line) == cfg.root,
    ensures
        next_step(cfg, ConnStateView::AwaitRequestLine, EventView::Line(crlf()))
            == menu_start(cfg.root),
        is_root_request(line) ==> next_step(
            cfg,
            ConnStateView::AwaitRequestLine,
            EventView::Line(line),
        ) == menu_start(cfg.root),
        !is_root_request(line) ==> next_step(
            cfg,
            next_step(cfg, ConnStateView::AwaitRequestLine, EventView::Line(line)).0,
            EventView::Probed(true),
        ) == menu_start(cfg.root),
{
    lemma_crlf_is_blank();
}

/// A selector that names no directory is answered with the bytes at its
/// path and nothing else, and a failure to send them ends the connection as
/// failed.
pub proof fn lemma_file_is_sent_as_it_is(cfg: ServerView, line: Seq<char>)
    requires
        !is_root_request(line),
    ensures
        ({
            let (resolving, probe) = next_step(
                cfg,
                ConnStateView::AwaitRequestLine,
                EventView::Line(line),
            );
            let (sending, send) = next_step(cfg, resolving, EventView::Probed(false));
            &&& probe == ActionView::ProbeDirectory { path: trimmed(line) }
            &&& send == ActionView::SendFile { path: trimmed(line) }
            &&& next_step(cfg, sending, EventView::Completed) == closed(false)
            &&& next_step(cfg, sending, EventView::Failed) == closed(true)
        }),
{
}

/// A failure ends the connection it happens on, and only that: the
/// connection is closed as failed, and the listener accepts the next one.
pub proof fn lemma_failure_is_contained(cfg: ServerView, state: ConnStateView)
    requires
        !(state is Done),
    ensures
        next_step(cfg, state, EventView::Failed) == closed(true),
        listener_next(ListenerEvent::ConnectionClosed { failed: true })
            == (ListenerAction::AcceptNext { report: true }),
        listener_next(ListenerEvent::AcceptFailed) == (ListenerAction::AcceptNext {
            report: true,
        }),
{
}

impl ConnState {
    /// A new connection, and its first action.
    pub fn start() -> (first: (ConnState, Action))
        ensures
            first.0@ == ConnStateView::AwaitRequestLine,
            first.1@ == ActionView::ReadLine,
    {
        (ConnState::AwaitRequestLine, Action::ReadLine)
    }

    /// Whether the connection is finished.
    pub fn is_done(&self) -> (done: bool)
        ensures
            done == (self@ is Done),
    {
        match self {
            ConnState::Done { .. } => true,
            _ => false,
        }
    }
}

/// What the listener does after `event`.
pub fn next_listener_action(event: ListenerEvent) -> (action: ListenerAction)
    ensures
        action == listener_next(event),
{
    match event {
        ListenerEvent::BindFailed => ListenerAction::Terminate,
        ListenerEvent::AcceptFailed => ListenerAction::AcceptNext { report: true },
        ListenerEvent::ConnectionClosed { failed } => ListenerAction::AcceptNext { report: failed },
    }
}

fn menu_file_name() -> (name: String)
    ensures
        name@ == map_file_name(),
{
    proof {
        lemma_constants();
    }
    String::from_str(MAP_FILE_NAME)
}

fn close(failed: bool) -> (next: (ConnState, Action))
    ensures
        (next.0@, next.1@) == closed(failed),
{
    (ConnState::Done { failed }, Action::Close)
}

impl GopherServer {
    /// The first step of a directory's answer.
    pub fn serve_map(&self, dir: String) -> (next: (ConnState, Action))
        ensures
            (next.0@, next.1@) == menu_start(dir@),
    {
        let path = dir.clone();
        let name = menu_file_name();
        (
            ConnState::Serving { stage: ServeStage::ProbeMenu, path },
            Action::ProbeMenuFile { dir, name },
        )
    }

    /// The first step of a file's answer.
    pub fn serve_file(&self, path: String) -> (next: (ConnState, Action))
        ensures
            (next.0@, next.1@) == serve_start(
                ResolvedPathView { path: path@, kind: ItemType::File },
            ),
    {
        let shown = path.clone();
        (
            ConnState::Serving { stage: ServeStage::Transmit, path: shown },
            Action::SendFile { path },
        )
    }

    /// The first step of the answer to a request line whose selector was
    /// probed: `is_dir` says whether it names an existing directory.
    pub fn serve_path(&self, line: &str, is_dir: bool) -> (next: (ConnState, Action))
        ensures
            (next.0@, next.1@) == serve_start(resolved(self@, line@, is_dir)),
    {
        let target: ResolvedPath = self.resolve(line, is_dir);
        match target.kind {
            ItemType::Directory => self.serve_map(target.path),
            ItemType::File => self.serve_file(target.path),
        }
    }

    /// What follows the request line.
    pub fn handle_stream(&self, line: String) -> (next: (ConnState, Action))
        ensures
            (next.0@, next.1@) == after_line(self@, line@),
    {
        proof {
            lemma_crlf_is_blank();
        }
        let selector = trim_selector(line.as_str());
        if selector.unicode_len() == 0 {
            self.serve_path(line.as_str(), true)
        } else {
            let path = String::from_str(selector);
            (ConnState::Resolving { line }, Action::ProbeDirectory { path })
        }
    }

    /// The machine's step: the next state and the action to perform, for
    /// the state a connection is in and the event that came.
    pub fn step(&self, state: ConnState, event: Event) -> (next: (ConnState, Action))
        ensures
            (next.0@, next.1@) == next_step(self@, state@, event@),
    {
        match state {
            ConnState::AwaitRequestLine => match event {
                Event::Line(line) => self.handle_stream(line),
                _ => close(true),
            },
            ConnState::Resolving { line } => match event {
                Event::Probed(is_dir) => self.serve_path(line.as_str(), is_dir),
                _ => close(true),
            },
            ConnState::Serving { stage, path } => match stage {
                ServeStage::ProbeMenu => match event {
                    Event::Probed(exists) => {
                        let dir = path.clone();
                        if exists {
                            let name = menu_file_name();
                            (
                                ConnState::Serving { stage: ServeStage::Transmit, path },
                                Action::SendMenuFile { dir, name },
                            )
                        } else {
                            (
                                ConnState::Serving { stage: ServeStage::ListDirectory, path },
                                Action::ListDirectory { dir },
                            )
                        }
                    },
                    _ => close(true),
                },
                ServeStage::ListDirectory => match event {
                    Event::Listed(items) => {
                        let content = self.generate_map_file(&items);
                        let dir = path.clone();
                        let name = menu_file_name();
                        (
                            ConnState::Serving { stage: ServeStage::WriteMenu, path },
                            Action::WriteMenuFile { dir, name, content },
                        )
                    },
                    _ => close(true),
                },
                ServeStage::WriteMenu => match event {
                    Event::Completed => {
                        let dir = path.clone();
                        let name = menu_file_name();
                        (
                            ConnState::Serving { stage: ServeStage::Transmit, path },
                            Action::SendMenuFile { dir, name },
                        )
                    },
                    _ => close(true),
                },
                ServeStage::Transmit => match event {
                    Event::Completed => close(false),
                    _ => close(true),
                },
            },
            ConnState::Done { failed } => close(failed),
        }
    }
}

} // verus!
