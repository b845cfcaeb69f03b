use deckgym::actions::{Action, SimpleAction};
use deckgym::attack_ids::AttackId;
use deckgym::card_ids::CardId;
use deckgym::database::{all_card_ids, attacks_implemented, get_card_by_enum, is_b2a_or_earlier};
use deckgym::deck::Deck;
use deckgym::game::Game;
use deckgym::models::{Card, EnergyType, PlayedCard, StatusCondition};
use deckgym::state::{GameOutcome, State};

fn cards(ids: &[CardId]) -> Vec<Card> {
    ids.iter().map(|id| get_card_by_enum(*id)).collect()
}

fn small_deck(energy: EnergyType) -> Deck {
    Deck::new(
        cards(&[
            CardId::A1001Bulbasaur,
            CardId::A1033Charmander,
            CardId::A1094Pikachu,
            CardId::PA001Potion,
            CardId::A1002Ivysaur,
            CardId::B2165Minun,
            CardId::PA007ProfessorsResearch,
        ]),
        vec![energy],
    )
}

fn new_game() -> Game {
    Game::new(&small_deck(EnergyType::Grass), &small_deck(EnergyType::Fire), 7)
}

fn attack(actor: usize) -> Action {
    Action { actor, action: SimpleAction::Attack(0), is_stack: false }
}

fn end_turn(actor: usize) -> Action {
    Action { actor, action: SimpleAction::EndTurn, is_stack: false }
}

#[test]
fn test_debug_string_lists_hands_and_board() {
    let mut state = State::new(&small_deck(EnergyType::Grass), &small_deck(EnergyType::Fire));
    state.hands[0] = cards(&[CardId::A1001Bulbasaur, CardId::PA007ProfessorsResearch]);
    state.in_play_pokemon[0][0] = Some(
        PlayedCard::from_id(CardId::A1001Bulbasaur).with_energy(vec![EnergyType::Grass, EnergyType::Grass]),
    );
    state.in_play_pokemon[1][2] = Some(PlayedCard::from_id(CardId::A1094Pikachu));
    let expected = format!(
        "P1 Hand:\t{:?}\nP1 InPlay:\t{:?}\nP2 InPlay:\t{:?}\nP2 Hand:\t{:?}",
        vec!["Bulbasaur".to_string(), "Professor's Research".to_string()],
        vec!["Bulbasaur(70hp,2)".to_string(), String::new(), String::new(), String::new()],
        vec![String::new(), String::new(), "Pikachu(60hp,0)".to_string(), String::new()],
        Vec::<String>::new(),
    );
    assert_eq!(state.debug_string(), expected);
    assert_eq!(
        state.debug_string(),
        "P1 Hand:\t[\"Bulbasaur\", \"Professor's Research\"]\nP1 InPlay:\t[\"Bulbasaur(70hp,2)\", \"\", \"\", \"\"]\nP2 InPlay:\t[\"\", \"\", \"Pikachu(60hp,0)\", \"\"]\nP2 Hand:\t[]"
    );
}

#[test]
fn test_attack_id_lookup() {
    assert_eq!(AttackId::from_pokemon_index("A1 115", 0), Some(AttackId::A1115AbraTeleport));
    assert_eq!(AttackId::from_pokemon_index("A1 246", 0), Some(AttackId::A1196MeowthPayDay));
    assert_eq!(AttackId::from_pokemon_index("B1 319", 1), Some(AttackId::A2049PalkiaExDimensionalStorm));
    assert_eq!(AttackId::from_pokemon_index("P-A 093", 0), Some(AttackId::A4077CleffaTwinklyCall));
    assert_eq!(AttackId::from_pokemon_index("A1 115", 1), None);
    assert_eq!(AttackId::from_pokemon_index("A1 11", 0), None);
    assert_eq!(AttackId::from_pokemon_index("", 0), None);
}

#[test]
fn test_database_is_complete() {
    let ids = all_card_ids();
    assert_eq!(ids.len(), 20);
    for id in ids {
        assert!(is_b2a_or_earlier(&id));
        assert!(attacks_implemented(id));
        assert_eq!(get_card_by_enum(id).id, id);
    }
}

#[test]
fn test_mesprit_needs_uxie_and_azelf_on_bench() {
    let mut state = new_game().get_state_clone();
    state.current_player = 0;
    let mesprit = PlayedCard::from_id(CardId::A2059Mesprit).with_energy(vec![
        EnergyType::Psychic,
        EnergyType::Psychic,
        EnergyType::Psychic,
    ]);
    state.set_board(vec![mesprit.clone(), PlayedCard::from_id(CardId::A2058Uxie)], vec![PlayedCard::from_id(CardId::A1001Bulbasaur)]);
    let (_, actions) = state.generate_possible_actions();
    assert!(!actions.iter().any(|a| a.action == SimpleAction::Attack(0)), "Azelf is missing");

    state.set_board(
        vec![
            mesprit,
            PlayedCard::from_id(CardId::A2060Azelf),
            PlayedCard::from_id(CardId::A2058Uxie),
        ],
        vec![PlayedCard::from_id(CardId::A1001Bulbasaur)],
    );
    let (_, actions) = state.generate_possible_actions();
    assert!(actions.iter().any(|a| a.action == SimpleAction::Attack(0)), "Uxie and Azelf are benched");
}

#[test]
fn test_supreme_blast_discards_all_energy() {
    let mut game = new_game();
    let mut state = game.get_state_clone();
    state.current_player = 0;
    state.set_board(
        vec![
            PlayedCard::from_id(CardId::A2059Mesprit).with_energy(vec![EnergyType::Psychic, EnergyType::Water]),
            PlayedCard::from_id(CardId::A2058Uxie),
            PlayedCard::from_id(CardId::A2060Azelf),
        ],
        vec![PlayedCard::from_id(CardId::A1002Ivysaur), PlayedCard::from_id(CardId::A1001Bulbasaur)],
    );
    game.set_state(state);
    game.apply_action(&attack(0));
    let state = game.get_state_clone();
    assert!(state.get_active(0).attached_energy.is_empty());
    assert_eq!(state.discard_energies[0], vec![EnergyType::Psychic, EnergyType::Water]);
    // 200 damage knocks out Ivysaur; Bulbasaur must be promoted.
    assert!(state.in_play_pokemon[1][0].is_none());
    assert_eq!(state.points[0], 1);
    assert_eq!(state.move_generation_stack.len(), 1);
    assert_eq!(state.move_generation_stack[0].0, 1);
    assert_eq!(state.move_generation_stack[0].1, vec![SimpleAction::Activate { player: 1, in_play_idx: 1 }]);
}

#[test]
fn test_weakness_adds_twenty() {
    let mut game = new_game();
    let mut state = game.get_state_clone();
    state.current_player = 0;
    state.set_board(
        vec![PlayedCard::from_id(CardId::A1033Charmander).with_energy(vec![EnergyType::Fire])],
        vec![PlayedCard::from_id(CardId::A1002Ivysaur)],
    );
    game.set_state(state);
    game.apply_action(&attack(0));
    let state = game.get_state_clone();
    // Ember: 30, plus 20 for Ivysaur's Fire weakness; the Fire energy is discarded.
    assert_eq!(state.get_active(1).get_remaining_hp(), 40);
    assert!(state.get_active(0).attached_energy.is_empty());
    assert_eq!(state.discard_energies[0], vec![EnergyType::Fire]);
}

#[test]
fn test_knockout_without_bench_ends_game() {
    let mut game = new_game();
    let mut state = game.get_state_clone();
    state.current_player = 1;
    state.set_board(
        vec![PlayedCard::from_id(CardId::A1094Pikachu)],
        vec![PlayedCard::from_id(CardId::A2a071ArceusEx), PlayedCard::from_id(CardId::A1001Bulbasaur)],
    );
    game.set_state(state);
    game.apply_action(&attack(1));
    let state = game.get_state_clone();
    // Ultimate Force: 70 + 20 for one benched Pokémon = 90 >= 60.
    assert!(state.in_play_pokemon[0][0].is_none());
    assert_eq!(state.winner, Some(GameOutcome::Win(1)));
    assert_eq!(state.points[1], 1);
    let (_, actions) = state.generate_possible_actions();
    assert!(actions.is_empty());
}

#[test]
fn test_attack_then_only_end_turn() {
    let mut game = new_game();
    let mut state = game.get_state_clone();
    state.current_player = 0;
    state.set_board(
        vec![PlayedCard::from_id(CardId::A1001Bulbasaur).with_energy(vec![EnergyType::Grass, EnergyType::Grass])],
        vec![PlayedCard::from_id(CardId::A1002Ivysaur)],
    );
    game.set_state(state);
    let (actor, actions) = game.get_state_clone().generate_possible_actions();
    assert_eq!(actor, 0);
    assert!(actions.contains(&attack(0)));
    assert!(actions.contains(&end_turn(0)));
    game.apply_action(&attack(0));
    let (actor, actions) = game.get_state_clone().generate_possible_actions();
    assert_eq!(actor, 0);
    assert_eq!(actions, vec![end_turn(0)]);
}

#[test]
fn test_end_turn_queues_draw_for_next_player() {
    let mut game = new_game();
    let mut state = game.get_state_clone();
    state.current_player = 0;
    state.turn_count = 3;
    game.set_state(state);
    let hand_before = game.get_state_clone().hands[1].len();
    game.apply_action(&end_turn(0));
    let state = game.get_state_clone();
    assert_eq!(state.current_player, 1);
    assert_eq!(state.turn_count, 4);
    assert_eq!(state.current_energy, Some(EnergyType::Fire));
    let (actor, actions) = state.generate_possible_actions();
    assert_eq!(actor, 1);
    assert_eq!(
        actions,
        vec![Action { actor: 1, action: SimpleAction::DrawCard { amount: 1 }, is_stack: true }]
    );
    game.apply_action(&actions[0]);
    let state = game.get_state_clone();
    assert_eq!(state.hands[1].len(), hand_before + 1);
    assert!(state.move_generation_stack.is_empty());
    // Two turn ends give the turn back to the first player.
    game.apply_action(&end_turn(1));
    let state = game.get_state_clone();
    assert_eq!(state.current_player, 0);
    assert_eq!(state.turn_count, 5);
}

#[test]
fn test_place_basic_from_hand() {
    let mut game = new_game();
    let mut state = game.get_state_clone();
    state.current_player = 0;
    state.hands[0] = cards(&[CardId::A1002Ivysaur, CardId::A1001Bulbasaur, CardId::PA001Potion]);
    state.in_play_pokemon[0] = [None, None, None, None];
    game.set_state(state);
    let (_, actions) = game.get_state_clone().generate_possible_actions();
    let bulbasaur = get_card_by_enum(CardId::A1001Bulbasaur);
    let places: Vec<SimpleAction> = actions
        .iter()
        .filter(|a| matches!(a.action, SimpleAction::Place(..)))
        .map(|a| a.action)
        .collect();
    assert_eq!(
        places,
        vec![
            SimpleAction::Place(bulbasaur, 0),
            SimpleAction::Place(bulbasaur, 1),
            SimpleAction::Place(bulbasaur, 2),
            SimpleAction::Place(bulbasaur, 3),
        ]
    );
    game.apply_action(&Action { actor: 0, action: SimpleAction::Place(bulbasaur, 0), is_stack: false });
    let state = game.get_state_clone();
    let placed = state.get_active(0);
    assert_eq!(placed.card, bulbasaur);
    assert!(placed.played_this_turn);
    assert_eq!(placed.get_remaining_hp(), 70);
    assert_eq!(state.hands[0].len(), 2);
    assert!(!state.hands[0].contains(&bulbasaur));
}

#[test]
fn test_offered_actions_all_apply() {
    let mut game = new_game();
    let mut state = game.get_state_clone();
    state.current_player = 0;
    state.hands[0] = cards(&[CardId::A1001Bulbasaur]);
    state.set_board(
        vec![
            PlayedCard::from_id(CardId::A3166TapuKoko).with_energy(vec![EnergyType::Lightning, EnergyType::Grass]),
            PlayedCard::from_id(CardId::A1094Pikachu),
        ],
        vec![PlayedCard::from_id(CardId::A1002Ivysaur)],
    );
    game.set_state(state);
    let (_, actions) = game.get_state_clone().generate_possible_actions();
    assert_eq!(actions.len(), 4); // attack, place into slots 2 and 3, end turn
    for action in &actions {
        let mut copy = Game::new(&small_deck(EnergyType::Grass), &small_deck(EnergyType::Fire), 7);
        copy.set_state(game.get_state_clone());
        copy.apply_action(action);
    }
    // Volt Switch offers the switch; choosing it swaps Tapu Koko and Pikachu.
    game.apply_action(&attack(0));
    let (actor, actions) = game.get_state_clone().generate_possible_actions();
    assert_eq!(actor, 0);
    assert_eq!(actions, vec![Action { actor: 0, action: SimpleAction::Activate { player: 0, in_play_idx: 1 }, is_stack: true }]);
    game.apply_action(&actions[0]);
    let state = game.get_state_clone();
    assert_eq!(state.get_active(0).card.id, CardId::A1094Pikachu);
    assert_eq!(state.in_play_pokemon[0][1].as_ref().unwrap().card.id, CardId::A3166TapuKoko);
    assert!(state.move_generation_stack.is_empty());
}

#[test]
fn test_status_condition_rules() {
    let mut state = State::default();
    state.in_play_pokemon[0][0] = Some(PlayedCard::from_id(CardId::A1001Bulbasaur));
    state.apply_status_condition(0, 0, StatusCondition::Asleep);
    state.apply_status_condition(0, 0, StatusCondition::Poisoned);
    state.apply_status_condition(0, 0, StatusCondition::Paralyzed);
    let pc = state.get_active(0);
    assert!(pc.is_paralyzed() && pc.is_poisoned() && !pc.is_asleep() && !pc.is_confused());
    state.in_play_pokemon[1][0] = Some(PlayedCard::from_id(CardId::A2a071ArceusEx));
    state.apply_status_condition(1, 0, StatusCondition::Burned);
    assert!(!state.get_active(1).is_burned());
}
