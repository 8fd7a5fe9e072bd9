//! A connection run against a model of the file system.
//!
//! The state machine only decides; the bytes and the files are the
//! caller's. What a whole request comes to can therefore be said only of a
//! caller whose file system behaves as the model here does. This module
//! holds that model and the laws of whole requests. Nothing in it is
//! executable.

use vstd::prelude::*;
use crate::connection::{
    after_line, lemma_every_step_advances, listener_next, next_step, steps_left, ActionView,
    ConnStateView, EventView, ListenerAction, ListenerEvent,
};
use crate::menu::{menu_text, ItemType};
use crate::selector::trimmed;
use crate::server::{
    crlf, is_root_request, lemma_crlf_is_blank, map_file_name, resolved, typed_entries,
    DirItemView, ResolvedPathView, ServerView,
};

verus! {

/// What the server sees of the file system: the listing of every directory,
/// by its path; the content of every other file, by its path; and the
/// content of every menu file, by the directory's path and the file's name.
/// A menu file is kept apart from the listing and the files of its
/// directory: the server never asks for it by a selector of its own.
pub struct Disk {
    pub dirs: Map<Seq<char>, Seq<DirItemView>>,
    pub files: Map<Seq<char>, Seq<char>>,
    pub menus: Map<(Seq<char>, Seq<char>), Seq<char>>,
}

/// What an action comes to: the file system after it, the event to report,
/// and the bytes that went to the client.
pub struct Effect {
    pub disk: Disk,
    pub event: EventView,
    pub sent: Seq<char>,
}

/// What a request comes to: the file system after it, all that went to the
/// client, and whether an error ended the connection.
pub struct Outcome {
    pub disk: Disk,
    pub sent: Seq<char>,
    pub failed: bool,
}

/// An action that changes nothing and sends nothing.
pub open spec fn quiet(disk: Disk, event: EventView) -> Effect {
    Effect { disk, event, sent: Seq::empty() }
}

/// The model: how the file system answers each action. Probing and listing
/// change nothing. Writing a menu file needs the directory and replaces what
/// the file held. Sending needs the file and sends all of it. The request
/// line is not the file system's to give, so reading fails here.
pub open spec fn perform(disk: Disk, action: ActionView) -> Effect {
    match action {
        ActionView::ReadLine => quiet(disk, EventView::Failed),
        ActionView::ProbeDirectory { path } => quiet(
            disk,
            EventView::Probed(disk.dirs.contains_key(path)),
        ),
        ActionView::ProbeMenuFile { dir, name } => quiet(
            disk,
            EventView::Probed(disk.menus.contains_key((dir, name))),
        ),
        ActionView::ListDirectory { dir } => if disk.dirs.contains_key(dir) {
            quiet(disk, EventView::Listed(disk.dirs[dir]))
        } else {
            quiet(disk, EventView::Failed)
        },
        ActionView::WriteMenuFile { dir, name, content } => if disk.dirs.contains_key(dir) {
            quiet(
                Disk {
                    dirs: disk.dirs,
                    files: disk.files,
                    menus: disk.menus.insert((dir, name), content),
                },
                EventView::Completed,
            )
        } else {
            quiet(disk, EventView::Failed)
        },
        ActionView::SendMenuFile { dir, name } => if disk.menus.contains_key((dir, name)) {
            Effect { disk, event: EventView::Completed, sent: disk.menus[(dir, name)] }
        } else {
            quiet(disk, EventView::Failed)
        },
        ActionView::SendFile { path } => if disk.files.contains_key(path) {
            Effect { disk, event: EventView::Completed, sent: disk.files[path] }
        } else {
            quiet(disk, EventView::Failed)
        },
        ActionView::Close => quiet(disk, EventView::Completed),
    }
}

/// The connection run from `state`, with `action` to perform next, for at
/// most `fuel` actions.
pub open spec fn run(
    cfg: ServerView,
    disk: Disk,
    state: ConnStateView,
    action: ActionView,
    fuel: nat,
) -> Outcome
    decreases fuel,
{
    match state {
        ConnStateView::Done { failed } => Outcome { disk, sent: Seq::empty(), failed },
        _ => if fuel == 0 {
            Outcome { disk, sent: Seq::empty(), failed: true }
        } else {
            let effect = perform(disk, action);
            let (next, then) = next_step(cfg, state, effect.event);
            let rest = run(cfg, effect.disk, next, then, (fuel - 1) as nat);
            Outcome { disk: rest.disk, sent: effect.sent + rest.sent, failed: rest.failed }
        },
    }
}

/// The whole answer to a request line. Five actions can follow the line.
pub open spec fn answer(cfg: ServerView, disk: Disk, line: Seq<char>) -> Outcome {
    let (state, action) = after_line(cfg, line);
    run(cfg, disk, state, action, 5)
}

/// What the line resolves to on this file system.
pub open spec fn target(cfg: ServerView, disk: Disk, line: Seq<char>) -> ResolvedPathView {
    resolved(cfg, line, disk.dirs.contains_key(trimmed(line)))
}

/// The first request for a directory that has no menu file makes the file
/// from the directory's listing, with a line for each entry of known type
/// and the closing line, and sends exactly that. A later request sends the
/// same bytes again and changes nothing, whatever else became of the file
/// system in between, the directory's own listing included, as long as the
/// menu file is as it was left.
pub proof fn lemma_menu_is_generated_once(
    cfg: ServerView,
    disk: Disk,
    later: Disk,
    line: Seq<char>,
    dir: Seq<char>,
)
    requires
        target(cfg, disk, line) == (ResolvedPathView { path: dir, kind: ItemType::Directory }),
        target(cfg, later, line) == target(cfg, disk, line),
        disk.dirs.contains_key(dir),
        !disk.menus.contains_key((dir, map_file_name())),
        later.menus.contains_key((dir, map_file_name())),
        later.menus[(dir, map_file_name())] == answer(cfg, disk, line).disk.menus[(
            dir,
            map_file_name(),
        )],
    ensures
        !answer(cfg, disk, line).failed,
        answer(cfg, disk, line).sent == menu_text(typed_entries(disk.dirs[dir], cfg)),
        answer(cfg, disk, line).disk == (Disk {
            dirs: disk.dirs,
            files: disk.files,
            menus: disk.menus.insert((dir, map_file_name()), answer(cfg, disk, line).sent),
        }),
        !answer(cfg, later, line).failed,
        answer(cfg, later, line).sent == answer(cfg, disk, line).sent,
        answer(cfg, later, line).disk == later,
{
    reveal_with_fuel(run, 6);
    let content = menu_text(typed_entries(disk.dirs[dir], cfg));
    assert(answer(cfg, disk, line).sent =~= content);
    assert(answer(cfg, later, line).sent =~= content);
}

/// The empty selector is answered exactly as the root directory's own
/// selector is, where the root is a directory.
pub proof fn lemma_empty_selector_answers_as_root(cfg: ServerView, disk: Disk, line: Seq<char>)
    requires
        trimmed(line) == cfg.root,
        disk.dirs.contains_key(cfg.root),
    ensures
        answer(cfg, disk, crlf()) == answer(cfg, disk, line),
{
    reveal_with_fuel(run, 6);
    lemma_crlf_is_blank();
    assert(answer(cfg, disk, crlf()).sent =~= answer(cfg, disk, line).sent);
}

/// A selector that names a file, and no directory, is answered with the
/// file's content and nothing else, and nothing is changed.
pub proof fn lemma_file_is_answered_with_its_content(
    cfg: ServerView,
    disk: Disk,
    line: Seq<char>,
)
    requires
        !is_root_request(line),
        !disk.dirs.contains_key(trimmed(line)),
        disk.files.contains_key(trimmed(line)),
    ensures
        !answer(cfg, disk, line).failed,
        answer(cfg, disk, line).sent == disk.files[trimmed(line)],
        answer(cfg, disk, line).disk == disk,
{
    reveal_with_fuel(run, 6);
    assert(answer(cfg, disk, line).sent =~= disk.files[trimmed(line)]);
}

/// A selector that names nothing ends its connection with an error: nothing
/// is sent and nothing is changed, and the listener accepts the next
/// connection.
pub proof fn lemma_missing_path_fails_alone(cfg: ServerView, disk: Disk, line: Seq<char>)
    requires
        !is_root_request(line),
        !disk.dirs.contains_key(trimmed(line)),
        !disk.files.contains_key(trimmed(line)),
    ensures
        answer(cfg, disk, line).failed,
        answer(cfg, disk, line).sent == Seq::<char>::empty(),
        answer(cfg, disk, line).disk == disk,
        listener_next(
            ListenerEvent::ConnectionClosed { failed: answer(cfg, disk, line).failed },
        ) == (ListenerAction::AcceptNext { report: true }),
{
    reveal_with_fuel(run, 6);
    assert(answer(cfg, disk, line).sent =~= Seq::<char>::empty());
}

/// Five actions are enough: no answer ends for want of fuel, so with more
/// fuel it is the same answer.
pub proof fn lemma_five_actions_suffice(
    cfg: ServerView,
    disk: Disk,
    line: Seq<char>,
    fuel: nat,
)
    requires
        fuel >= 5,
    ensures
        run(cfg, disk, after_line(cfg, line).0, after_line(cfg, line).1, fuel) == answer(
            cfg,
            disk,
            line,
        ),
{
    let (state, action) = after_line(cfg, line);
    lemma_run_is_stable(cfg, disk, state, action, 5, fuel);
}

/// A run that has the fuel for the steps that are left does not run out of
/// it: it is the same run with any more fuel.
pub proof fn lemma_run_is_stable(
    cfg: ServerView,
    disk: Disk,
    state: ConnStateView,
    action: ActionView,
    fuel: nat,
    more: nat,
)
    requires
        steps_left(state) <= fuel <= more,
    ensures
        run(cfg, disk, state, action, fuel) == run(cfg, disk, state, action, more),
    decreases fuel,
{
    if !(state is Done) {
        let effect = perform(disk, action);
        let (next, then) = next_step(cfg, state, effect.event);
        lemma_every_step_advances(cfg, state, effect.event);
        lemma_run_is_stable(cfg, effect.disk, next, then, (fuel - 1) as nat, (more - 1) as nat);
    }
}

} // verus!
