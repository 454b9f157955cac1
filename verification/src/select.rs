//! Which of the discovered players a command acts on.
//!
//! The players are gone through in the order of discovery. A player is
//! eligible when it answers that it can play; a player that fails to answer
//! is not. The first eligible player is chosen, or, where the caller asked
//! for a name, the first eligible player of that name.

use crate::error::McError;
use vstd::prelude::*;
use vstd::string::*;

verus! {

/// Whether an answer to "can you play now?" makes its player eligible: a
/// plain yes does, a no and a failure to answer do not.
pub open spec fn eligible(answer: Result<bool, McError>) -> bool {
    answer == Ok::<bool, McError>(true)
}

/// Whether a player's name is the one asked for. Every name is, where none
/// was asked for.
pub open spec fn name_fits(name: Seq<char>, wanted: Option<Seq<char>>) -> bool {
    match wanted {
        Some(asked) => name == asked,
        None => true,
    }
}

/// A player as the selection sees it: the name that it is shown under, and
/// what it answered when asked whether it can play now.
#[derive(Debug, PartialEq, Eq)]
pub struct Candidate {
    pub name: String,
    pub can_play: Result<bool, McError>,
}

impl Candidate {
    /// Whether the selection takes this player.
    pub open spec fn accepted(self, wanted: Option<Seq<char>>) -> bool {
        eligible(self.can_play) && name_fits(self.name@, wanted)
    }
}

/// What was asked for, as a sequence of characters.
pub open spec fn wanted_name(wanted: Option<String>) -> Option<Seq<char>> {
    match wanted {
        Some(asked) => Some(asked@),
        None => None,
    }
}

/// The place of the first player from `from` on that the selection takes.
pub open spec fn first_accepted_from(
    list: Seq<Candidate>,
    wanted: Option<Seq<char>>,
    from: int,
) -> Option<int>
    decreases list.len() - from,
{
    if from >= list.len() {
        None
    } else if list[from].accepted(wanted) {
        Some(from)
    } else {
        first_accepted_from(list, wanted, from + 1)
    }
}

/// The place of the active player: the first one that the selection takes.
pub open spec fn first_accepted(list: Seq<Candidate>, wanted: Option<Seq<char>>) -> Option<int> {
    first_accepted_from(list, wanted, 0)
}

/// Tells whether `name` is the name asked for.
fn fits(name: &String, wanted: &Option<String>) -> (fitting: bool)
    ensures
        fitting == name_fits(name@, wanted_name(*wanted)),
{
    match wanted {
        Some(asked) => *name == *asked,
        None => true,
    }
}

/// Selects the active player among players that have all been asked
/// already, and returns its place in the list. Fails with
/// `McError::NoActive` where the selection takes none of them.
pub fn first_active(wanted: &Option<String>, list: &Vec<Candidate>) -> (result: Result<
    usize,
    McError,
>)
    ensures
        match first_accepted(list@, wanted_name(*wanted)) {
            Some(place) => result == Ok::<usize, McError>(place as usize),
            None => result == Err::<usize, McError>(McError::NoActive),
        },
        result matches Ok(place) ==> {
            &&& place < list.len()
            &&& list@[place as int].accepted(wanted_name(*wanted))
            &&& forall|earlier: int|
                0 <= earlier < place ==> !list@[earlier].accepted(wanted_name(*wanted))
        },
        result is Err ==> forall|any: int|
            0 <= any < list.len() ==> !list@[any].accepted(wanted_name(*wanted)),
{
    let mut at: usize = 0;
    while at < list.len()
        invariant
            at <= list.len(),
            first_accepted(list@, wanted_name(*wanted)) == first_accepted_from(
                list@,
                wanted_name(*wanted),
                at as int,
            ),
            forall|earlier: int|
                0 <= earlier < at ==> !list@[earlier].accepted(wanted_name(*wanted)),
        decreases list.len() - at,
    {
        let candidate = &list[at];
        let can_play = match &candidate.can_play {
            Ok(yes) => *yes,
            Err(_) => false,
        };
        if can_play && fits(&candidate.name, wanted) {
            return Ok(at);
        }
        at += 1;
    }
    Err(McError::NoActive)
}

/// What a selection that asks the players one by one does next.
#[derive(Debug, Clone, Copy, PartialEq, Eq, Structural)]
pub enum Step {
    /// Ask the player at this place whether it can play now, and come back
    /// with its answer.
    Ask(usize),
    /// The player at this place is the active one.
    Chosen(usize),
    /// No player is active.
    NoActive,
}

/// The first step of a selection among `count` players.
pub open spec fn first_step(count: nat) -> Step {
    if count > 0 {
        Step::Ask(0)
    } else {
        Step::NoActive
    }
}

/// The step that follows the answer of the player at `asked`: that player is
/// chosen if the selection takes it; otherwise the next one is asked, if
/// there is a next one.
pub open spec fn step_after(
    names: Seq<Seq<char>>,
    wanted: Option<Seq<char>>,
    asked: int,
    answer: Result<bool, McError>,
) -> Step {
    if 0 <= asked < names.len() && eligible(answer) && name_fits(names[asked], wanted) {
        Step::Chosen(asked as usize)
    } else if 0 <= asked && asked + 1 < names.len() {
        Step::Ask((asked + 1) as usize)
    } else {
        Step::NoActive
    }
}

/// Opens a selection among `count` players. No player is asked before the
/// ones in front of it have been.
pub fn begin(count: usize) -> (step: Step)
    ensures
        step == first_step(count as nat),
{
    if count > 0 {
        Step::Ask(0)
    } else {
        Step::NoActive
    }
}

/// Continues a selection with the answer of the player at `asked`. `names`
/// holds the names of the discovered players, in their order.
pub fn advance(
    wanted: &Option<String>,
    names: &Vec<String>,
    asked: usize,
    answer: &Result<bool, McError>,
) -> (step: Step)
    ensures
        step == step_after(names.deep_view(), wanted_name(*wanted), asked as int, *answer),
{
    if asked >= names.len() {
        return Step::NoActive;
    }
    let can_play = match answer {
        Ok(yes) => *yes,
        Err(_) => false,
    };
    if can_play && fits(&names[asked], wanted) {
        Step::Chosen(asked)
    } else if asked + 1 < names.len() {
        Step::Ask(asked + 1)
    } else {
        Step::NoActive
    }
}

/// The names of the players of a list, in their order.
pub open spec fn names_of(list: Seq<Candidate>) -> Seq<Seq<char>> {
    list.map_values(|candidate: Candidate| candidate.name@)
}

/// Where a selection ends that stands at `step` and gets from each player
/// that it asks the answer that `list` holds for it. The list is one that a
/// machine can hold.
pub open spec fn settled(list: Seq<Candidate>, wanted: Option<Seq<char>>, step: Step) -> Step
    decreases
        (match step {
            Step::Ask(asked) => list.len() - asked,
            _ => 0,
        }),
    when list.len() <= usize::MAX
{
    match step {
        Step::Ask(asked) => if asked < list.len() {
            settled(
                list,
                wanted,
                step_after(names_of(list), wanted, asked as int, list[asked as int].can_play),
            )
        } else {
            Step::NoActive
        },
        _ => step,
    }
}

/// The step that a place stands for: chosen, or no active player.
pub open spec fn verdict(place: Option<int>) -> Step {
    match place {
        Some(at) => Step::Chosen(at as usize),
        None => Step::NoActive,
    }
}

/// A selection that has come to ask the player at `asked` ends at the first
/// player from there on that the selection takes.
proof fn lemma_settled_from(list: Seq<Candidate>, wanted: Option<Seq<char>>, asked: nat)
    requires
        asked < list.len() <= usize::MAX,
    ensures
        settled(list, wanted, Step::Ask(asked as usize)) == verdict(
            first_accepted_from(list, wanted, asked as int),
        ),
    decreases list.len() - asked,
{
    let next = step_after(names_of(list), wanted, asked as int, list[asked as int].can_play);
    assert(settled(list, wanted, Step::Ask(asked as usize)) == settled(list, wanted, next));
    assert(names_of(list)[asked as int] == list[asked as int].name@);
    if list[asked as int].accepted(wanted) {
        assert(next == Step::Chosen(asked as usize));
        assert(settled(list, wanted, next) == next);
    } else if asked + 1 < list.len() {
        assert(next == Step::Ask((asked + 1) as usize));
        lemma_settled_from(list, wanted, asked + 1);
    } else {
        assert(next == Step::NoActive);
        assert(settled(list, wanted, next) == next);
        assert(first_accepted_from(list, wanted, asked as int + 1) is None);
    }
}

/// Asking the players one by one selects the same player as looking at all
/// their answers at once: run from `begin` with `advance`, the selection
/// ends with the first player that it takes chosen, and with no active
/// player where it takes none.
pub proof fn lemma_stepwise_selection(list: Seq<Candidate>, wanted: Option<Seq<char>>)
    requires
        list.len() <= usize::MAX,
    ensures
        settled(list, wanted, first_step(list.len())) == verdict(first_accepted(list, wanted)),
{
    if list.len() > 0 {
        lemma_settled_from(list, wanted, 0);
    }
}

} // verus!
