//! From the names on the bus to the list of players.
//!
//! Discovery has two halves. The first turns the names that the bus lists
//! into the players to connect to, in a fixed order. The second takes what
//! came of connecting and yields either every player or none.

use crate::backend::{
    kind_of, lemma_reserved_names, Backend, BackendKind, BackendView, MPRIS_PREFIX, RADIOTRAY_NG,
};
use crate::error::McError;
use vstd::prelude::*;

verus! {

/// The transport player that owns a bus name: every name that begins with
/// the transport prefix has one, of the kind that the name calls for.
pub open spec fn transport_at(bus_name: Seq<char>) -> Option<BackendView> {
    if MPRIS_PREFIX@.is_prefix_of(bus_name) {
        Some(BackendView { kind: kind_of(bus_name)->0, bus_name })
    } else {
        None
    }
}

/// The radio stream player, which is always found at its reserved name.
pub open spec fn radio_player() -> BackendView {
    BackendView { kind: BackendKind::RadioTray, bus_name: RADIOTRAY_NG@ }
}

/// The transport players behind a listing of bus names, in the order of the
/// listing.
pub open spec fn transports(names: Seq<Seq<char>>) -> Seq<BackendView> {
    names.filter_map(|name: Seq<char>| transport_at(name))
}

/// The players behind a listing of bus names: the transport players in the
/// order of the listing, then the radio stream player if its name is listed.
pub open spec fn discovered(names: Seq<Seq<char>>) -> Seq<BackendView> {
    transports(names) + if names.contains(RADIOTRAY_NG@) {
        seq![radio_player()]
    } else {
        Seq::empty()
    }
}

/// The bus names of a list of players, in the order of the list.
pub open spec fn bus_names(list: Seq<BackendView>) -> Seq<Seq<char>> {
    list.map_values(|player: BackendView| player.bus_name)
}

/// Lists the players to connect to for the names that the bus reports.
pub fn get_all(names: &Vec<String>) -> (list: Vec<Backend>)
    ensures
        list.deep_view() == discovered(names.deep_view()),
{
    let mut list: Vec<Backend> = Vec::new();
    let mut radio: Option<Backend> = None;
    let mut at: usize = 0;
    let ghost listed = names.deep_view();
    while at < names.len()
        invariant
            at <= names.len(),
            listed == names.deep_view(),
            list.deep_view() == transports(listed.take(at as int)),
            radio is Some <==> listed.take(at as int).contains(RADIOTRAY_NG@),
            radio matches Some(player) ==> player@ == radio_player(),
        decreases names.len() - at,
    {
        proof {
            lemma_reserved_names();
            listed.lemma_filter_map_take_succ(|name: Seq<char>| transport_at(name), at as int);
            lemma_contains_take_succ(listed, RADIOTRAY_NG@, at as int);
        }
        let ghost before = list.deep_view();
        match Backend::new(names[at].as_str()) {
            Some(player) => match player.kind() {
                BackendKind::RadioTray => {
                    radio = Some(player);
                },
                _ => {
                    list.push(player);
                    assert(list.deep_view() =~= before + seq![player@]);
                },
            },
            None => {},
        }
        at += 1;
    }
    assert(listed.take(names.len() as int) =~= listed);
    let ghost carried = list.deep_view();
    if let Some(player) = radio {
        list.push(player);
        assert(list.deep_view() =~= carried + seq![radio_player()]);
    }
    list
}

/// Where the first failure stands among the outcomes from `from` on, if one
/// of them is a failure.
pub open spec fn first_failure_from<T>(outcomes: Seq<Result<T, McError>>, from: int) -> Option<int>
    decreases outcomes.len() - from,
{
    if from >= outcomes.len() {
        None
    } else if outcomes[from] is Err {
        Some(from)
    } else {
        first_failure_from(outcomes, from + 1)
    }
}

/// Where the first failure stands among the outcomes, if any failed.
pub open spec fn first_failure<T>(outcomes: Seq<Result<T, McError>>) -> Option<int> {
    first_failure_from(outcomes, 0)
}

/// What the outcomes hold where none of them is a failure.
pub open spec fn successes<T>(outcomes: Seq<Result<T, McError>>) -> Seq<T> {
    outcomes.map_values(|outcome: Result<T, McError>| outcome->Ok_0)
}

/// Closes a discovery over what came of connecting to each player, in the
/// order in which the outcomes are to be looked at. Discovery succeeds as a
/// whole or not at all: with one failure among the outcomes no player is
/// handed out, and the discovery fails as the first of them did.
pub fn assemble<T>(outcomes: Vec<Result<T, McError>>) -> (result: Result<Vec<T>, McError>)
    ensures
        result is Ok <==> forall|i: int| 0 <= i < outcomes@.len() ==> outcomes@[i] is Ok,
        match first_failure(outcomes@) {
            Some(at) => 0 <= at < outcomes@.len() && outcomes@[at] is Err && result == Err::<
                Vec<T>,
                McError,
            >(outcomes@[at]->Err_0),
            None => result matches Ok(list) && list@ == successes(outcomes@),
        },
{
    let ghost all = outcomes@;
    let mut list: Vec<T> = Vec::new();
    for outcome in it: outcomes
        invariant
            it.seq() == all,
            list@ == successes(all.take(it.index() as int)),
            forall|i: int| 0 <= i < it.index() ==> all[i] is Ok,
            first_failure(all) == first_failure_from(all, it.index() as int),
    {
        let ghost at = it.index() as int;
        match outcome {
            Ok(made) => {
                list.push(made);
                assert(list@ =~= successes(all.take(at + 1)));
            },
            Err(error) => {
                return Err(error);
            },
        }
    }
    assert(all.take(all.len() as int) =~= all);
    Ok(list)
}

/// A value occurs among the first `at + 1` items exactly if it occurs among
/// the first `at` or is the item at `at`.
proof fn lemma_contains_take_succ<T>(items: Seq<T>, wanted: T, at: int)
    requires
        0 <= at < items.len(),
    ensures
        items.take(at + 1).contains(wanted) <==> items.take(at).contains(wanted) || items[at]
            == wanted,
{
    let longer = items.take(at + 1);
    if items[at] == wanted {
        assert(longer[at] == wanted);
    }
}

/// Each transport player of a listing stands for a listed name; each listed
/// name that begins with the transport prefix has its player; and where no
/// name is listed twice, no two of the players share a bus name.
proof fn lemma_transports(names: Seq<Seq<char>>)
    ensures
        forall|k: int|
            0 <= k < transports(names).len() ==> names.contains(
                #[trigger] transports(names)[k].bus_name,
            ) && transport_at(transports(names)[k].bus_name) == Some(transports(names)[k]),
        forall|name: Seq<char>|
            names.contains(name) && transport_at(name) is Some ==> transports(names).contains(
                #[trigger] transport_at(name)->0,
            ),
        names.no_duplicates() ==> forall|i: int, j: int|
            0 <= i < j < transports(names).len() ==> #[trigger] transports(names)[i].bus_name
                != #[trigger] transports(names)[j].bus_name,
    decreases names.len(),
{
    let found = transports(names);
    if names.len() > 0 {
        let rest = names.drop_last();
        let last = names.last();
        let before = transports(rest);
        lemma_transports(rest);
        assert(found == before + match transport_at(last) {
            Some(player) => seq![player],
            None => Seq::empty(),
        });
        assert forall|k: int| 0 <= k < found.len() implies names.contains(
            #[trigger] found[k].bus_name,
        ) && transport_at(found[k].bus_name) == Some(found[k]) by {
            if k < before.len() {
                let at = choose|i: int| 0 <= i < rest.len() && rest[i] == before[k].bus_name;
                assert(names[at] == before[k].bus_name);
            }
        }
        assert forall|name: Seq<char>|
            names.contains(name) && transport_at(name) is Some implies found.contains(
            #[trigger] transport_at(name)->0,
        ) by {
            let at = choose|i: int| 0 <= i < names.len() && names[i] == name;
            if at < rest.len() {
                assert(rest[at] == name);
                assert(rest.contains(name));
                let place = choose|k: int|
                    0 <= k < before.len() && before[k] == transport_at(name)->0;
                assert(found[place] == transport_at(name)->0);
            } else {
                assert(found[found.len() - 1] == transport_at(name)->0);
            }
        }
        if names.no_duplicates() {
            assert forall|i: int, j: int| 0 <= i < j < found.len() implies #[trigger] found[i].bus_name
                != #[trigger] found[j].bus_name by {
                if j >= before.len() {
                    let at = choose|k: int| 0 <= k < rest.len() && rest[k] == before[i].bus_name;
                    assert(names[at] == before[i].bus_name);
                }
            }
        }
    }
}

/// Discovery finds the players and nothing else: a bus name belongs to one
/// of the discovered players exactly if it is listed and is a player's name,
/// and each discovered player is of the kind that its name calls for.
pub proof fn lemma_discovered_members(names: Seq<Seq<char>>)
    ensures
        forall|name: Seq<char>|
            #[trigger] bus_names(discovered(names)).contains(name) <==> names.contains(name)
                && kind_of(name) is Some,
        forall|k: int|
            0 <= k < discovered(names).len() ==> kind_of(
                #[trigger] discovered(names)[k].bus_name,
            ) == Some(discovered(names)[k].kind),
{
    lemma_transports(names);
    lemma_reserved_names();
    let found = discovered(names);
    let carried = transports(names);
    assert forall|k: int| 0 <= k < found.len() implies kind_of(#[trigger] found[k].bus_name)
        == Some(found[k].kind) && names.contains(found[k].bus_name) by {
        if k < carried.len() {
            assert(found[k] == carried[k]);
        }
    }
    assert forall|name: Seq<char>| #[trigger]
        bus_names(found).contains(name) <==> names.contains(name) && kind_of(
            name,
        ) is Some by {
        if bus_names(found).contains(name) {
            let k = choose|k: int| 0 <= k < bus_names(found).len() && bus_names(found)[k] == name;
            assert(found[k].bus_name == name);
        }
        if names.contains(name) && kind_of(name) is Some {
            if transport_at(name) is Some {
                let player = transport_at(name)->0;
                let k = choose|k: int| 0 <= k < carried.len() && carried[k] == player;
                assert(bus_names(found)[k] == name);
            } else {
                assert(bus_names(found)[found.len() - 1] == name);
            }
        }
    }
}

/// No two discovered players share a bus name, as long as the bus lists no
/// name twice.
pub proof fn lemma_discovered_distinct(names: Seq<Seq<char>>)
    requires
        names.no_duplicates(),
    ensures
        bus_names(discovered(names)).no_duplicates(),
{
    lemma_transports(names);
    lemma_reserved_names();
    let found = discovered(names);
    let carried = transports(names);
    assert forall|i: int, j: int|
        0 <= i < bus_names(found).len() && 0 <= j < bus_names(found).len() && i
            != j implies bus_names(found)[i] != bus_names(found)[j] by {
        let low = if i < j {
            i
        } else {
            j
        };
        let high = if i < j {
            j
        } else {
            i
        };
        assert(found[low] == carried[low]);
        if high >= carried.len() {
            assert(found[high] == radio_player());
        }
    }
}

} // verus!
