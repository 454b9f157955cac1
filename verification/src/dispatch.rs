//! What each command asks of the players, and what it shows of their
//! answers.
//!
//! A run selects the active player first. The command then names one task;
//! the caller carries it out on the bus and hands the answers to the
//! function that finishes that task.

use crate::backend::{call_for, BackendKind, Control, RemoteCall};
use crate::error::McError;
use crate::track::{MusicInfo, MusicInfoView};
use vstd::prelude::*;
use vstd::string::*;

verus! {

/// The commands that a run can be given.
#[derive(Debug, Clone, Copy, PartialEq, Eq, Structural)]
pub enum Command {
    /// Show the track of every player that has one.
    List,
    Play,
    Stop,
    Next,
    Prev,
    /// Show the track of the active player. This is the command of a run
    /// that names none.
    Info,
    /// Post the track of the active player as a desktop notification.
    Vinfo,
    /// Declared, but nothing carries it out.
    Mute,
}

impl Default for Command {
    fn default() -> (command: Command)
        ensures
            command == Command::Info,
    {
        Command::Info
    }
}

/// What has to happen on the bus for a command.
#[derive(Debug, Clone, Copy, PartialEq, Eq, Structural)]
pub enum Task {
    /// Ask every discovered player for its track. A player that fails to
    /// answer counts as one without a track.
    ListAll,
    /// Ask the active player for its track. A failure ends the run.
    ShowActive,
    /// Make one remote call on the active player. A failure ends the run.
    Send(RemoteCall),
    /// Ask the active player for its track and post it as a notification. A
    /// failure to answer counts as no track; a failure to post ends the run.
    NotifyActive,
    /// Nothing carries the command out: the run stops for good.
    Unsupported,
}

/// The task of a command, for an active player of the given kind.
pub open spec fn task_of(command: Command, active: BackendKind) -> Task {
    match command {
        Command::List => Task::ListAll,
        Command::Info => Task::ShowActive,
        Command::Play => Task::Send(call_for(active, Control::Play)),
        Command::Stop => Task::Send(call_for(active, Control::Stop)),
        Command::Next => Task::Send(call_for(active, Control::Next)),
        Command::Prev => Task::Send(call_for(active, Control::Prev)),
        Command::Vinfo => Task::NotifyActive,
        Command::Mute => Task::Unsupported,
    }
}

/// Decides what a command asks of the bus once the active player is known.
pub fn task_for(command: Command, active: BackendKind) -> (task: Task)
    ensures
        task == task_of(command, active),
{
    match command {
        Command::List => Task::ListAll,
        Command::Info => Task::ShowActive,
        Command::Play => Task::Send(active.remote_call(Control::Play)),
        Command::Stop => Task::Send(active.remote_call(Control::Stop)),
        Command::Next => Task::Send(active.remote_call(Control::Next)),
        Command::Prev => Task::Send(active.remote_call(Control::Prev)),
        Command::Vinfo => Task::NotifyActive,
        Command::Mute => Task::Unsupported,
    }
}

/// The line that shows a player's track: the player's name, a colon and a
/// space, and the rendered track.
pub open spec fn report_line(name: Seq<char>, info: MusicInfoView) -> Seq<char> {
    name + seq![':', ' '] + info.display()
}

/// Writes the line that shows a player's track.
pub fn report(name: &str, info: &MusicInfo) -> (line: String)
    ensures
        line@ == report_line(name@, info@),
{
    proof {
        reveal_strlit(": ");
    }
    let mut line = String::from_str(name);
    line.append(": ");
    assert(": "@ =~= seq![':', ' ']);
    let rendered = info.render();
    line.append(rendered.as_str());
    line
}

/// What a player's answer counts as where failures are absorbed: the track
/// that it reported, and no track where it reported none or failed.
pub open spec fn absorbed(outcome: Result<Option<MusicInfo>, McError>) -> Option<MusicInfo> {
    match outcome {
        Ok(found) => found,
        Err(_) => None,
    }
}

/// Takes a player's answer as a track or none; a failure counts as none.
pub fn absorb(outcome: Result<Option<MusicInfo>, McError>) -> (found: Option<MusicInfo>)
    ensures
        found == absorbed(outcome),
{
    match outcome {
        Ok(found) => found,
        Err(_) => None,
    }
}

/// One player's answer to a listing: its name and what came of asking for
/// its track.
#[derive(Debug, PartialEq, Eq)]
pub struct Answer {
    pub name: String,
    pub info: Result<Option<MusicInfo>, McError>,
}

/// The line that a listing holds for one answer, if it holds one.
pub open spec fn listed(answer: Answer) -> Option<Seq<char>> {
    match absorbed(answer.info) {
        Some(info) => Some(report_line(answer.name@, info@)),
        None => None,
    }
}

/// The lines of a listing: one for each player that reported a track, in the
/// order of the players.
pub open spec fn listing_lines(answers: Seq<Answer>) -> Seq<Seq<char>> {
    answers.filter_map(|answer: Answer| listed(answer))
}

/// Finishes `Task::ListAll`: writes the lines to print. Players without a
/// track, and players that failed to answer, are left out without a word.
pub fn listing(answers: &Vec<Answer>) -> (lines: Vec<String>)
    ensures
        lines.deep_view() == listing_lines(answers@),
{
    let mut lines: Vec<String> = Vec::new();
    let mut at: usize = 0;
    while at < answers.len()
        invariant
            at <= answers.len(),
            lines.deep_view() == listing_lines(answers@.take(at as int)),
        decreases answers.len() - at,
    {
        proof {
            answers@.lemma_filter_map_take_succ(|answer: Answer| listed(answer), at as int);
        }
        let answer = &answers[at];
        let ghost before = lines.deep_view();
        match &answer.info {
            Ok(Some(info)) => {
                lines.push(report(answer.name.as_str(), info));
                assert(lines.deep_view() =~= before + seq![report_line(answer.name@, info@)]);
            },
            _ => {},
        }
        at += 1;
    }
    assert(answers@.take(answers.len() as int) =~= answers@);
    lines
}

/// Finishes `Task::ShowActive`: the line to print, nothing where the player
/// has no track, and the player's own failure where it failed to answer.
pub fn shown(name: &str, outcome: Result<Option<MusicInfo>, McError>) -> (result: Result<
    Option<String>,
    McError,
>)
    ensures
        match outcome {
            Ok(Some(info)) => result matches Ok(Some(line)) && line@ == report_line(
                name@,
                info@,
            ),
            Ok(None) => result == Ok::<Option<String>, McError>(None),
            Err(error) => result == Err::<Option<String>, McError>(error),
        },
{
    match outcome {
        Ok(Some(info)) => Ok(Some(report(name, &info))),
        Ok(None) => Ok(None),
        Err(error) => Err(error),
    }
}

/// What is handed to the notification service for a track.
#[derive(Debug, PartialEq, Eq)]
pub struct Notification {
    /// The notification that this one replaces; 0 replaces none.
    pub replaces_id: u32,
    /// Where the icon can be found.
    pub icon: String,
    pub summary: String,
    pub body: String,
    /// After how many milliseconds the notification goes away; 0 leaves that
    /// to the service.
    pub expire_timeout: i32,
}

/// Finishes the first half of `Task::NotifyActive`: the notification to
/// post. It shows the cover as its icon, the rendered track as its summary
/// and the player's name as its body, replaces nothing and sets no timeout.
/// There is none to post where the player has no track or failed to answer.
pub fn notification(name: &str, outcome: Result<Option<MusicInfo>, McError>) -> (result: Option<
    Notification,
>)
    ensures
        result is Some <==> absorbed(outcome) is Some,
        result matches Some(note) ==> {
            &&& note.replaces_id == 0
            &&& note.expire_timeout == 0
            &&& note.icon@ == absorbed(outcome)->0@.cover
            &&& note.summary@ == absorbed(outcome)->0@.display()
            &&& note.body@ == name@
        },
{
    match absorb(outcome) {
        Some(info) => Some(
            Notification {
                replaces_id: 0,
                summary: info.render(),
                icon: info.cover,
                body: String::from_str(name),
                expire_timeout: 0,
            },
        ),
        None => None,
    }
}

} // verus!
