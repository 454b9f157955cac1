use musicctl::error::McError;
use musicctl::select::{advance, begin, first_active, Candidate, Step};

fn candidate(name: &str, can_play: Result<bool, McError>) -> Candidate {
    Candidate { name: name.to_string(), can_play }
}

fn three_players() -> Vec<Candidate> {
    vec![candidate("A", Ok(false)), candidate("B", Ok(true)), candidate("C", Ok(true))]
}

fn run_stepwise(wanted: &Option<String>, list: &[Candidate]) -> (Step, Vec<usize>) {
    let names: Vec<String> = list.iter().map(|player| player.name.clone()).collect();
    let mut asked = Vec::new();
    let mut step = begin(names.len());
    while let Step::Ask(place) = step {
        asked.push(place);
        step = advance(wanted, &names, place, &list[place].can_play);
    }
    (step, asked)
}

#[test]
fn first_player_that_can_play_is_selected() {
    assert_eq!(first_active(&None, &three_players()), Ok(1));
}

#[test]
fn asked_for_name_selects_the_player_of_that_name() {
    assert_eq!(first_active(&Some("C".to_string()), &three_players()), Ok(2));
    assert_eq!(first_active(&Some("B".to_string()), &three_players()), Ok(1));
}

#[test]
fn asked_for_player_that_cannot_play_is_not_selected() {
    assert_eq!(first_active(&Some("A".to_string()), &three_players()), Err(McError::NoActive));
}

#[test]
fn no_players_means_no_active_player() {
    assert_eq!(first_active(&None, &Vec::new()), Err(McError::NoActive));
    assert_eq!(first_active(&Some("A".to_string()), &Vec::new()), Err(McError::NoActive));
}

#[test]
fn unknown_name_means_no_active_player() {
    assert_eq!(first_active(&Some("D".to_string()), &three_players()), Err(McError::NoActive));
    assert_eq!(first_active(&Some("".to_string()), &three_players()), Err(McError::NoActive));
    assert_eq!(first_active(&Some("c".to_string()), &three_players()), Err(McError::NoActive));
}

#[test]
fn player_that_fails_to_answer_is_passed_over() {
    let list = vec![
        candidate("A", Err(McError::Transport("gone".to_string()))),
        candidate("B", Err(McError::Decode("garbled".to_string()))),
        candidate("C", Ok(true)),
    ];
    assert_eq!(first_active(&None, &list), Ok(2));
    assert_eq!(first_active(&Some("A".to_string()), &list), Err(McError::NoActive));
}

#[test]
fn nobody_able_to_play_means_no_active_player() {
    let list = vec![candidate("A", Ok(false)), candidate("B", Err(McError::NoActive))];
    assert_eq!(first_active(&None, &list), Err(McError::NoActive));
}

#[test]
fn first_of_two_players_of_one_name_is_selected() {
    let list = vec![
        candidate("vlc (MPRIS)", Ok(false)),
        candidate("vlc (MPRIS)", Ok(true)),
        candidate("vlc (MPRIS)", Ok(true)),
    ];
    assert_eq!(first_active(&Some("vlc (MPRIS)".to_string()), &list), Ok(1));
}

#[test]
fn selection_opens_with_the_first_player() {
    assert_eq!(begin(3), Step::Ask(0));
    assert_eq!(begin(1), Step::Ask(0));
    assert_eq!(begin(0), Step::NoActive);
}

#[test]
fn stepwise_selection_stops_asking_at_the_chosen_player() {
    let (step, asked) = run_stepwise(&None, &three_players());
    assert_eq!(step, Step::Chosen(1));
    assert_eq!(asked, vec![0, 1]);
}

#[test]
fn stepwise_selection_asks_everyone_where_nobody_fits() {
    let (step, asked) = run_stepwise(&Some("A".to_string()), &three_players());
    assert_eq!(step, Step::NoActive);
    assert_eq!(asked, vec![0, 1, 2]);
}

#[test]
fn stepwise_selection_agrees_with_selection_at_once() {
    let lists = vec![
        three_players(),
        Vec::new(),
        vec![candidate("A", Ok(true))],
        vec![candidate("A", Err(McError::Transport("x".to_string()))), candidate("C", Ok(true))],
        vec![candidate("C", Ok(false)), candidate("C", Ok(true))],
    ];
    let criteria = vec![None, Some("A".to_string()), Some("C".to_string()), Some("Z".to_string())];
    for list in &lists {
        for wanted in &criteria {
            let expected = match first_active(wanted, list) {
                Ok(place) => Step::Chosen(place),
                Err(_) => Step::NoActive,
            };
            assert_eq!(run_stepwise(wanted, list).0, expected);
        }
    }
}

#[test]
fn answer_steps_to_the_next_player_or_ends() {
    let names = vec!["A".to_string(), "B".to_string()];
    assert_eq!(advance(&None, &names, 0, &Ok(false)), Step::Ask(1));
    assert_eq!(advance(&None, &names, 0, &Ok(true)), Step::Chosen(0));
    assert_eq!(advance(&None, &names, 1, &Ok(false)), Step::NoActive);
    assert_eq!(advance(&None, &names, 1, &Err(McError::NoActive)), Step::NoActive);
    assert_eq!(advance(&Some("B".to_string()), &names, 0, &Ok(true)), Step::Ask(1));
    assert_eq!(advance(&Some("B".to_string()), &names, 1, &Ok(true)), Step::Chosen(1));
}

#[test]
fn answer_of_a_player_that_is_not_there_ends_the_selection() {
    let names = vec!["A".to_string()];
    assert_eq!(advance(&None, &names, 1, &Ok(true)), Step::NoActive);
    assert_eq!(advance(&None, &names, usize::MAX, &Ok(true)), Step::NoActive);
    assert_eq!(advance(&None, &Vec::new(), 0, &Ok(true)), Step::NoActive);
}
