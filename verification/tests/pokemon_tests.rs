use deckgym::actions::{Action, SimpleAction};
use deckgym::card_ids::CardId;
use deckgym::database::get_card_by_enum;
use deckgym::deck::Deck;
use deckgym::game::Game;
use deckgym::models::{Card, EnergyType, PlayedCard};

fn test_deck(energy: EnergyType) -> Deck {
    let ids = [
        CardId::A1001Bulbasaur,
        CardId::A1001Bulbasaur,
        CardId::A1002Ivysaur,
        CardId::A1033Charmander,
        CardId::A1094Pikachu,
        CardId::B2165Minun,
        CardId::A4b122Wishiwashi,
        CardId::A3166TapuKoko,
        CardId::PA001Potion,
        CardId::PA007ProfessorsResearch,
    ];
    let cards: Vec<Card> = ids.iter().map(|id| get_card_by_enum(*id)).collect();
    Deck::new(cards, vec![energy])
}

fn get_initialized_game(seed: u64) -> Game {
    Game::new(&test_deck(EnergyType::Grass), &test_deck(EnergyType::Lightning), seed)
}

#[test]
fn test_minun_attack_no_plusle() {
    let mut game = get_initialized_game(0);
    let mut state = game.get_state_clone();

    state.set_board(
        vec![PlayedCard::from_id(CardId::B2165Minun)
            .with_energy(vec![EnergyType::Lightning])],
        vec![
            PlayedCard::from_id(CardId::A1001Bulbasaur),
            PlayedCard::from_id(CardId::A1001Bulbasaur),
        ],
    );
    state.current_player = 0;
    game.set_state(state);

    let attack_action = Action {
        actor: 0,
        action: SimpleAction::Attack(0),
        is_stack: false,
    };
    game.apply_action(&attack_action);

    let state = game.get_state_clone();
    assert_eq!(state.get_active(1).get_remaining_hp(), 40, "Base damage is 30 (70 - 30 = 40)");
    assert_eq!(state.in_play_pokemon[1][1].as_ref().unwrap().get_remaining_hp(), 70, "No bench damage");
}

#[test]
fn test_tapu_koko_attack_with_lightning_bench() {
    let mut game = get_initialized_game(0);
    let mut state = game.get_state_clone();

    state.set_board(
        vec![
            PlayedCard::from_id(CardId::A3166TapuKoko)
                .with_energy(vec![EnergyType::Lightning, EnergyType::Colorless]),
            PlayedCard::from_id(CardId::A1094Pikachu), // Lightning
        ],
        vec![PlayedCard::from_id(CardId::A1002Ivysaur)],
    );
    state.current_player = 0;
    game.set_state(state);

    let attack_action = Action {
        actor: 0,
        action: SimpleAction::Attack(0),
        is_stack: false,
    };
    game.apply_action(&attack_action);

    // Verify damage: 90 - 70 = 20
    let state = game.get_state_clone();
    assert_eq!(state.get_active(1).get_remaining_hp(), 20, "Base damage is 70");

    // Verify switch choices exist in the move generation stack
    assert_eq!(state.move_generation_stack.len(), 1);
    let (_, choices) = state.move_generation_stack.last().unwrap();
    assert_eq!(choices.len(), 1);
    if let SimpleAction::Activate { player, in_play_idx } = choices[0] {
        assert_eq!(player, 0);
        assert_eq!(in_play_idx, 1);
    } else {
        panic!("Expected Activate action");
    }
}

#[test]
fn test_wishiwashi_ex_gathering_attack_no_bench() {
    let mut game = get_initialized_game(0);
    let mut state = game.get_state_clone();

    state.set_board(
        vec![PlayedCard::from_id(CardId::A4b124WishiwashiEx)
            .with_energy(vec![EnergyType::Water, EnergyType::Water])],
        vec![PlayedCard::from_id(CardId::A1001Bulbasaur)],
    );
    state.current_player = 0;
    game.set_state(state);

    let attack_action = Action {
        actor: 0,
        action: SimpleAction::Attack(0),
        is_stack: false,
    };
    game.apply_action(&attack_action);

    let opponent_hp = game.get_state_clone().get_active(1).get_remaining_hp();
    assert_eq!(opponent_hp, 40, "Base damage is 30 (70 - 30 = 40)");
}

#[test]
fn test_wishiwashi_ex_gathering_attack_with_bench() {
    let mut game = get_initialized_game(0);
    let mut state = game.get_state_clone();

    state.set_board(
        vec![
            PlayedCard::from_id(CardId::A4b124WishiwashiEx)
                .with_energy(vec![EnergyType::Water, EnergyType::Water]),
            PlayedCard::from_id(CardId::A4b122Wishiwashi),
            PlayedCard::from_id(CardId::A4b122Wishiwashi),
        ],
        vec![PlayedCard::from_id(CardId::A1001Bulbasaur)],
    );
    state.current_player = 0;
    game.set_state(state);

    let attack_action = Action {
        actor: 0,
        action: SimpleAction::Attack(0),
        is_stack: false,
    };
    game.apply_action(&attack_action);

    let state = game.get_state_clone();
    // Base 30 + (2 * 40) = 110 damage. Bulbasaur has 70 HP, so it's KO'd.
    assert!(state.in_play_pokemon[1][0].is_none(), "Bulbasaur should be KO'd and removed");
}

#[test]
fn test_minun_attack_with_plusle() {
    let mut game = get_initialized_game(0);
    let mut state = game.get_state_clone();

    state.set_board(
        vec![
            PlayedCard::from_id(CardId::B2165Minun)
                .with_energy(vec![EnergyType::Lightning]),
            PlayedCard::from_id(CardId::B2052Plusle),
        ],
        vec![
            PlayedCard::from_id(CardId::A1001Bulbasaur),
            PlayedCard::from_id(CardId::A1001Bulbasaur),
        ],
    );
    state.current_player = 0;
    game.set_state(state);

    let attack_action = Action {
        actor: 0,
        action: SimpleAction::Attack(0),
        is_stack: false,
    };
    game.apply_action(&attack_action);

    let state = game.get_state_clone();
    assert_eq!(state.get_active(1).get_remaining_hp(), 40, "Base damage is 30 (70 - 30 = 40)");
    assert_eq!(state.in_play_pokemon[1][1].as_ref().unwrap().get_remaining_hp(), 60, "10 bench damage");
}

#[test]
fn test_turtonator_shell_trap() {
    let mut game = get_initialized_game(0);
    let mut state = game.get_state_clone();

    state.set_board(
        vec![PlayedCard::from_id(CardId::B1047Turtonator)
            .with_energy(vec![EnergyType::Fire, EnergyType::Fire])],
        vec![PlayedCard::from_id(CardId::A1001Bulbasaur).with_energy(vec![EnergyType::Grass, EnergyType::Grass])],
    );
    state.current_player = 0;
    game.set_state(state);

    // Turtonator attacks
    let attack_action = Action {
        actor: 0,
        action: SimpleAction::Attack(0),
        is_stack: false,
    };
    game.apply_action(&attack_action);

    let state = game.get_state_clone();
    // Base damage 40 + 20 (Weakness) = 60 -> Bulbasaur has 10 HP left (70 - 60)
    assert_eq!(state.get_active(1).get_remaining_hp(), 10);

    // Now it's Bulbasaur's turn
    let end_turn_action = Action { actor: 0, action: SimpleAction::EndTurn, is_stack: false };
    game.apply_action(&end_turn_action);

    // Bulbasaur attacks Turtonator (attack 0: Vine Whip, 40 damage)
    let opp_attack = Action { actor: 1, action: SimpleAction::Attack(0), is_stack: false };
    game.apply_action(&opp_attack);

    // Turtonator takes 40 damage (110 - 40 = 70 HP)
    let state = game.get_state_clone();
    assert_eq!(state.get_active(0).get_remaining_hp(), 70, "Turtonator takes 40 damage");

    // Opponent should be choosing a promotion or game ended if no bench
    assert!(state.winner.is_some(), "Bulbasaur is KO'd by Revenge Damage and game ends");
}

#[test]
fn test_cherubi_attack_cost_reduction() {
    let mut game = get_initialized_game(0);
    let mut state = game.get_state_clone();

    let cherubi = PlayedCard::from_id(CardId::A4b026Cherubi);

    state.set_board(
        vec![cherubi],
        vec![PlayedCard::from_id(CardId::A1001Bulbasaur)],
    );
    state.current_player = 0;

    // Without a tool the attack is not affordable.
    game.set_state(state.clone());
    let (_, actions) = game.get_state_clone().generate_possible_actions();
    let can_attack = actions.iter().any(|a| matches!(a.action, SimpleAction::Attack(0)));
    assert!(!can_attack, "Should not be able to attack without tool");

    // Attach a tool
    let tool_card = get_card_by_enum(CardId::A3b067Leftovers);
    state.in_play_pokemon[0][0].as_mut().unwrap().attached_tool = Some(tool_card);

    // With a tool its cost drops, so it is usable.
    game.set_state(state.clone());
    let (_, actions) = game.get_state_clone().generate_possible_actions();
    let can_attack = actions.iter().any(|a| matches!(a.action, SimpleAction::Attack(0)));
    assert!(can_attack, "Should be able to attack with tool attached");
}

#[test]
fn test_chinchou_luring_glow() {
    let mut game = get_initialized_game(0);
    let mut state = game.get_state_clone();

    state.set_board(
        vec![PlayedCard::from_id(CardId::PA095Chinchou).with_energy(vec![EnergyType::Lightning])],
        vec![
            PlayedCard::from_id(CardId::A1001Bulbasaur), // Active
            PlayedCard::from_id(CardId::A1033Charmander), // Bench
        ],
    );
    state.current_player = 0;
    game.set_state(state);

    let attack_action = Action {
        actor: 0,
        action: SimpleAction::Attack(0),
        is_stack: false,
    };

    // Attack should execute without panicking
    game.apply_action(&attack_action);
    let _state = game.get_state_clone();

    // Depending on the coin flip it either queued a choice or did nothing.
}

#[test]
fn test_luring_glow_forced_heads_offers_opponent_bench() {
    let mut game = get_initialized_game(0);
    let mut state = game.get_state_clone();
    state.set_board(
        vec![PlayedCard::from_id(CardId::PA095Chinchou).with_energy(vec![EnergyType::Lightning])],
        vec![
            PlayedCard::from_id(CardId::A1001Bulbasaur),
            PlayedCard::from_id(CardId::A1033Charmander),
        ],
    );
    state.current_player = 0;
    state.move_generation_stack.clear();
    state.set_pending_will_first_heads();
    game.set_state(state);
    game.apply_action(&Action { actor: 0, action: SimpleAction::Attack(0), is_stack: false });
    let state = game.get_state_clone();
    assert!(!state.has_pending_will_first_heads());
    let (chooser, choices) = state.move_generation_stack.last().unwrap().clone();
    assert_eq!(chooser, 0);
    assert_eq!(choices, vec![SimpleAction::Activate { player: 1, in_play_idx: 1 }]);
}

#[test]
fn test_attack_cost_in_play_with_tool() {
    let mut cherubi = PlayedCard::from_id(CardId::A4b026Cherubi);
    assert_eq!(deckgym::hooks::get_attack_cost(&cherubi, 0), vec![EnergyType::Grass]);
    cherubi.attached_tool = Some(get_card_by_enum(CardId::A3b067Leftovers));
    assert_eq!(deckgym::hooks::get_attack_cost(&cherubi, 0), Vec::<EnergyType>::new());
    // A tool lowers no other attack's cost.
    let mut bulbasaur = PlayedCard::from_id(CardId::A1001Bulbasaur);
    bulbasaur.attached_tool = Some(get_card_by_enum(CardId::A3b067Leftovers));
    assert_eq!(deckgym::hooks::get_attack_cost(&bulbasaur, 0), vec![EnergyType::Grass, EnergyType::Colorless]);
}

#[test]
fn test_shell_trap_lasts_one_opponent_turn() {
    let mut game = get_initialized_game(0);
    let mut state = game.get_state_clone();
    state.set_board(
        vec![PlayedCard::from_id(CardId::B1047Turtonator).with_energy(vec![EnergyType::Fire, EnergyType::Fire])],
        vec![PlayedCard::from_id(CardId::A1033Charmander)],
    );
    state.current_player = 0;
    game.set_state(state);
    game.apply_action(&Action { actor: 0, action: SimpleAction::Attack(0), is_stack: false });
    game.apply_action(&Action { actor: 0, action: SimpleAction::EndTurn, is_stack: false });
    game.apply_action(&Action { actor: 1, action: SimpleAction::EndTurn, is_stack: false });
    // The effect is gone after the opponent's turn: it no longer strikes back.
    let state = game.get_state_clone();
    assert!(state.get_active(0).effects.is_empty());
}

#[test]
fn test_sweets_relay_use_is_recorded() {
    let mut game = get_initialized_game(0);
    let mut state = game.get_state_clone();
    state.set_board(
        vec![PlayedCard::from_id(CardId::A4b026Cherubi).with_energy(vec![EnergyType::Grass])],
        vec![PlayedCard::from_id(CardId::A1094Pikachu)],
    );
    state.current_player = 0;
    let turn = state.turn_count;
    game.set_state(state);
    game.apply_action(&Action { actor: 0, action: SimpleAction::Attack(0), is_stack: false });
    let state = game.get_state_clone();
    assert_eq!(state.sweets_relay_last_used_turn, [Some(turn), None]);
    assert_eq!(state.sweets_relay_uses_per_game, [1, 0]);
    // Sweets Relay does 20 damage to Pikachu (60 HP).
    assert_eq!(state.get_active(1).get_remaining_hp(), 40);
}

#[test]
fn test_other_attacks_are_not_counted() {
    let mut game = get_initialized_game(0);
    let mut state = game.get_state_clone();
    state.set_board(
        vec![PlayedCard::from_id(CardId::A1094Pikachu).with_energy(vec![EnergyType::Lightning])],
        vec![PlayedCard::from_id(CardId::A1001Bulbasaur)],
    );
    state.current_player = 0;
    game.set_state(state);
    game.apply_action(&Action { actor: 0, action: SimpleAction::Attack(0), is_stack: false });
    let state = game.get_state_clone();
    assert_eq!(state.sweets_relay_last_used_turn, [None, None]);
    assert_eq!(state.sweets_relay_uses_per_game, [0, 0]);
}
