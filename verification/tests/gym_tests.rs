use deckgym::gym_wrapper::{gym_next, gym_pick, GymError, GymNext};
use deckgym::actions::{Action, SimpleAction};
use deckgym::card_ids::CardId;
use deckgym::database::get_card_by_enum;
use deckgym::gym_wrapper::{
    build_mask, discarded_pokemon_count, discarded_supporter_count, energy_in_play, energy_type_to_idx,
    hand_sort_key, playable_hand_card_ids, primary_energy_idx, sorted_hand,
};
use deckgym::models::{Card, EnergyType, PlayedCard};
use deckgym::state::{GameOutcome, State};

fn card(id: CardId) -> Card {
    get_card_by_enum(id)
}

fn place(id: CardId, slot: usize) -> Action {
    Action { actor: 0, action: SimpleAction::Place(card(id), slot), is_stack: false }
}

#[test]
fn test_energy_indices() {
    assert_eq!(energy_type_to_idx(EnergyType::Grass), 0);
    assert_eq!(energy_type_to_idx(EnergyType::Lightning), 3);
    assert_eq!(energy_type_to_idx(EnergyType::Dragon), 8);
    assert_eq!(energy_type_to_idx(EnergyType::Colorless), 9);
}

#[test]
fn test_primary_energy_index() {
    assert_eq!(primary_energy_idx(&vec![]), 9);
    assert_eq!(primary_energy_idx(&vec![EnergyType::Colorless, EnergyType::Colorless]), 9);
    assert_eq!(primary_energy_idx(&vec![EnergyType::Fire, EnergyType::Colorless]), 1);
    assert_eq!(primary_energy_idx(&vec![EnergyType::Water, EnergyType::Grass, EnergyType::Water]), 2);
    // On a tie the higher index wins.
    assert_eq!(primary_energy_idx(&vec![EnergyType::Grass, EnergyType::Psychic]), 4);
    assert_eq!(primary_energy_idx(&vec![EnergyType::Metal, EnergyType::Grass, EnergyType::Grass, EnergyType::Metal, EnergyType::Colorless]), 7);
}

#[test]
fn test_hand_sort_keys() {
    assert_eq!(hand_sort_key(&card(CardId::A1001Bulbasaur), true), (0, 0, "A1 001".to_string()));
    assert_eq!(hand_sort_key(&card(CardId::PA007ProfessorsResearch), false), (1, 1, "P-A 007".to_string()));
    assert_eq!(hand_sort_key(&card(CardId::PA001Potion), true), (0, 2, "P-A 001".to_string()));
    assert_eq!(hand_sort_key(&card(CardId::A3b067Leftovers), false), (1, 3, "A3b 067".to_string()));
}

#[test]
fn test_playable_ids_are_distinct_placed_cards() {
    let actions = vec![
        place(CardId::A1001Bulbasaur, 1),
        Action { actor: 0, action: SimpleAction::EndTurn, is_stack: false },
        place(CardId::A1094Pikachu, 1),
        place(CardId::A1001Bulbasaur, 2),
    ];
    assert_eq!(playable_hand_card_ids(&actions), vec!["A1 001".to_string(), "A1 094".to_string()]);
    assert!(playable_hand_card_ids(&vec![]).is_empty());
}

#[test]
fn test_build_mask() {
    let actions = vec![place(CardId::A1001Bulbasaur, 1), place(CardId::A1094Pikachu, 2)];
    assert_eq!(build_mask(&actions, 4), vec![1, 1, 0, 0]);
    assert_eq!(build_mask(&actions, 1), vec![1]);
    assert!(build_mask(&actions, 0).is_empty());
}

#[test]
fn test_sorted_hand_order() {
    let hand = vec![
        card(CardId::PA001Potion),
        card(CardId::A1094Pikachu),
        card(CardId::PA007ProfessorsResearch),
        card(CardId::A1001Bulbasaur),
        card(CardId::A3b067Leftovers),
        card(CardId::A1094Pikachu),
    ];
    let playable = vec!["A1 094".to_string(), "P-A 001".to_string()];
    let sorted = sorted_hand(&hand, &playable);
    let got: Vec<(CardId, bool)> = sorted.iter().map(|(c, p)| (c.id, *p)).collect();
    assert_eq!(
        got,
        vec![
            (CardId::A1094Pikachu, true),
            (CardId::A1094Pikachu, true),
            (CardId::PA001Potion, true),
            (CardId::A1001Bulbasaur, false),
            (CardId::PA007ProfessorsResearch, false),
            (CardId::A3b067Leftovers, false),
        ]
    );
    // The same order as a stable sort by the keys.
    let mut expected: Vec<(Card, bool)> = hand
        .iter()
        .map(|c| (*c, playable.contains(&c.get_id())))
        .collect();
    expected.sort_by_key(|(c, p)| hand_sort_key(c, *p));
    assert_eq!(sorted, expected);
}

#[test]
fn test_board_and_discard_counts() {
    let mut state = State::default();
    state.in_play_pokemon[1][0] =
        Some(PlayedCard::from_id(CardId::A1001Bulbasaur).with_energy(vec![EnergyType::Grass, EnergyType::Grass]));
    state.in_play_pokemon[1][3] = Some(PlayedCard::from_id(CardId::A1094Pikachu).with_energy(vec![EnergyType::Water]));
    assert_eq!(energy_in_play(&state, 1), 3);
    assert_eq!(energy_in_play(&state, 0), 0);
    state.discard_piles[0] = vec![
        card(CardId::A1001Bulbasaur),
        card(CardId::PA007ProfessorsResearch),
        card(CardId::PA001Potion),
        card(CardId::A1094Pikachu),
    ];
    assert_eq!(discarded_pokemon_count(&state, 0), 2);
    assert_eq!(discarded_supporter_count(&state, 0), 1);
    assert_eq!(discarded_pokemon_count(&state, 1), 0);
}

#[test]
fn test_gym_pick_clamps_and_refuses() {
    let a = Action { actor: 0, action: SimpleAction::EndTurn, is_stack: false };
    let b = Action { actor: 0, action: SimpleAction::Attack(0), is_stack: false };
    let possible = vec![a, b];
    assert_eq!(gym_pick(&possible, false, 0), Ok(a));
    assert_eq!(gym_pick(&possible, false, 7), Ok(b));
    assert_eq!(gym_pick(&possible, true, 0), Err(GymError::GameOver));
    assert_eq!(gym_pick(&Vec::new(), false, 0), Err(GymError::NoValidActions));
}

#[test]
fn test_gym_next_reports_finished_game() {
    let mut state = State::default();
    state.winner = Some(GameOutcome::Win(1));
    match gym_next(&state, 0) {
        GymNext::Finished(w) => assert_eq!(w, Some(GameOutcome::Win(1))),
        other => panic!("unexpected {:?}", other),
    }
}
