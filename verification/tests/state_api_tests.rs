use rand::rngs::StdRng;
use rand::SeedableRng;
use deckgym::actions::mutations::{
    active_damage_doutcome, active_damage_effect_doutcome, active_damage_mutation, apply_mutation,
    damage_doutcome, damage_effect_doutcome, damage_effect_mutation, damage_mutation, doutcome,
    doutcome_from_mutation, FnMutation,
};
use deckgym::actions::{Action, SimpleAction};
use deckgym::card_ids::CardId;
use deckgym::database::get_card_by_enum;
use deckgym::deck::Deck;
use deckgym::effects::TurnEffect;
use deckgym::models::{Card, EnergyType, PlayedCard, StatusCondition};
use deckgym::state::{State, MAX_HAND_SIZE};

fn card(id: CardId) -> Card {
    get_card_by_enum(id)
}

fn deck(ids: &[CardId], energy: EnergyType) -> Deck {
    Deck::new(ids.iter().map(|id| card(*id)).collect(), vec![energy])
}

fn two_decks() -> (Deck, Deck) {
    let ids = [
        CardId::A1001Bulbasaur,
        CardId::PA001Potion,
        CardId::A1033Charmander,
        CardId::PA007ProfessorsResearch,
        CardId::A1001Bulbasaur,
    ];
    (deck(&ids, EnergyType::Grass), deck(&ids, EnergyType::Fire))
}

#[test]
fn test_outcome_builders() {
    let (p, m) = doutcome(FnMutation::SwitchSelfWithBench);
    assert_eq!(p, vec![(1, 1)]);
    assert!(m[0].targets.is_empty());
    assert_eq!(m[0].additional_effect, FnMutation::SwitchSelfWithBench);

    let (p, m) = active_damage_doutcome(30);
    assert_eq!(p, vec![(1, 1)]);
    assert_eq!(m[0].targets, vec![(30, 0)]);
    assert_eq!(m[0].additional_effect, FnMutation::NoEffect);

    let (_, m) = damage_doutcome(vec![(10, 1), (20, 2)]);
    assert_eq!(m[0].targets, vec![(10, 1), (20, 2)]);

    let (_, m) = active_damage_effect_doutcome(40, FnMutation::SelfDiscardEnergy(EnergyType::Fire));
    assert_eq!(m[0].targets, vec![(40, 0)]);
    assert_eq!(m[0].additional_effect, FnMutation::SelfDiscardEnergy(EnergyType::Fire));

    let (_, m) = damage_effect_doutcome(vec![(5, 3)], FnMutation::OpponentActiveStatus(StatusCondition::Poisoned));
    assert_eq!(m[0].targets, vec![(5, 3)]);
    assert_eq!(m[0].additional_effect, FnMutation::OpponentActiveStatus(StatusCondition::Poisoned));

    assert_eq!(active_damage_mutation(50).targets, vec![(50, 0)]);
    assert_eq!(damage_mutation(vec![(1, 1)]).additional_effect, FnMutation::NoEffect);
    let (p, m) = doutcome_from_mutation(damage_effect_mutation(vec![(7, 0)], FnMutation::SelfDiscardAllEnergy));
    assert_eq!(p.len(), 1);
    assert_eq!(m[0].additional_effect, FnMutation::SelfDiscardAllEnergy);
}

#[test]
fn test_status_effect_then_damage_to_bench() {
    let mut state = State::default();
    state.in_play_pokemon[0][0] = Some(PlayedCard::from_id(CardId::A1033Charmander));
    state.in_play_pokemon[1][0] = Some(PlayedCard::from_id(CardId::A1001Bulbasaur));
    state.in_play_pokemon[1][2] = Some(PlayedCard::from_id(CardId::A1094Pikachu));
    let action = Action { actor: 0, action: SimpleAction::Attack(0), is_stack: false };
    let mutation = damage_effect_mutation(
        vec![(10, 0), (20, 2)],
        FnMutation::OpponentActiveStatus(StatusCondition::Poisoned),
    );
    let mut rng = StdRng::seed_from_u64(0);
    apply_mutation(&mutation, &mut rng, &mut state, &action);
    let active = state.get_active(1);
    assert!(active.is_poisoned());
    // Charmander is Fire and Bulbasaur is weak to Fire: 10 + 20.
    assert_eq!(active.get_remaining_hp(), 40);
    // Weakness applies to the active Pokémon only.
    assert_eq!(state.get_remaining_hp(1, 2), 40);
}

#[test]
fn test_stadium_replace_and_name() {
    let mut state = State::default();
    assert_eq!(state.get_active_stadium_name(), None);
    assert_eq!(state.set_active_stadium(card(CardId::PA001Potion)), None);
    let previous = state.set_active_stadium(card(CardId::A3b067Leftovers));
    assert_eq!(previous, Some(card(CardId::PA001Potion)));
    assert_eq!(state.get_active_stadium_name(), Some("Leftovers".to_string()));
}

#[test]
fn test_turn_effects_and_forced_heads() {
    let mut state = State::default();
    state.turn_count = 3;
    assert!(!state.has_pending_will_first_heads());
    assert!(!state.consume_pending_will_first_heads());
    state.set_pending_will_first_heads();
    assert!(state.has_pending_will_first_heads());
    assert_eq!(state.get_current_turn_effects(), vec![TurnEffect::ForceFirstHeads]);
    assert!(state.consume_pending_will_first_heads());
    assert!(!state.has_pending_will_first_heads());
    assert!(state.get_current_turn_effects().is_empty());

    state.add_turn_effect(TurnEffect::ForceFirstHeads, 2);
    for turn in 3..=5 {
        state.turn_count = turn;
        assert!(state.has_pending_will_first_heads(), "turn {turn}");
    }
    state.turn_count = 6;
    assert!(!state.has_pending_will_first_heads());
    state.turn_count = 3;
    state.add_turn_effect_at_offset(TurnEffect::ForceFirstHeads, 10);
    state.turn_count = 13;
    assert_eq!(state.get_current_turn_effects(), vec![TurnEffect::ForceFirstHeads]);
    state.turn_count = 12;
    assert!(state.get_current_turn_effects().is_empty());
}

#[test]
fn test_hand_and_deck_transfers() {
    let (deck_a, deck_b) = two_decks();
    let mut state = State::new(&deck_a, &deck_b);
    let charmander = card(CardId::A1033Charmander);
    state.transfer_card_from_deck_to_hand(0, &charmander);
    assert_eq!(state.hands[0], vec![charmander]);
    assert_eq!(state.decks[0].cards.len(), 4);
    state.transfer_card_from_hand_to_deck(0, &charmander);
    assert!(state.hands[0].is_empty());
    // The card went to the bottom of the deck; the deck holds the same cards.
    assert_eq!(state.decks[0].cards.last(), Some(&charmander));
    let mut before: Vec<CardId> = deck_a.cards.iter().map(|c| c.id).collect();
    let mut after: Vec<CardId> = state.decks[0].cards.iter().map(|c| c.id).collect();
    before.sort_by_key(|id| format!("{id:?}"));
    after.sort_by_key(|id| format!("{id:?}"));
    assert_eq!(before, after);
    // The other player's cards are untouched.
    assert_eq!(state.decks[1], deck_b);
}

#[test]
fn test_hand_filters() {
    let (deck_a, deck_b) = two_decks();
    let mut state = State::new(&deck_a, &deck_b);
    state.hands[1] = vec![
        card(CardId::PA007ProfessorsResearch),
        card(CardId::A1001Bulbasaur),
        card(CardId::PA001Potion),
        card(CardId::A1094Pikachu),
    ];
    assert_eq!(state.iter_hand_pokemon(1), vec![card(CardId::A1001Bulbasaur), card(CardId::A1094Pikachu)]);
    assert_eq!(state.iter_hand_supporters(1), vec![card(CardId::PA007ProfessorsResearch)]);
    assert_eq!(
        state.iter_deck_pokemon(0),
        vec![card(CardId::A1001Bulbasaur), card(CardId::A1033Charmander), card(CardId::A1001Bulbasaur)]
    );
    state.discard_card_from_hand(1, &card(CardId::A1001Bulbasaur));
    assert_eq!(state.discard_piles[1], vec![card(CardId::A1001Bulbasaur)]);
    assert_eq!(state.hands[1].len(), 3);
}

#[test]
fn test_board_queries_and_flags() {
    let mut state = State::default();
    state.set_board(
        vec![
            PlayedCard::from_id(CardId::A1094Pikachu),
            PlayedCard::from_id(CardId::A1001Bulbasaur),
            PlayedCard::from_id(CardId::A3166TapuKoko),
        ],
        vec![],
    );
    state.in_play_pokemon[0][1] = None;
    assert_eq!(state.num_in_play_of_type(0, EnergyType::Lightning), 2);
    assert_eq!(state.num_in_play_of_type(0, EnergyType::Grass), 0);
    let in_play: Vec<usize> = state.enumerate_in_play_pokemon(0).iter().map(|(i, _)| *i).collect();
    let bench: Vec<usize> = state.enumerate_bench_pokemon(0).iter().map(|(i, _)| *i).collect();
    assert_eq!(in_play, vec![0, 2]);
    assert_eq!(bench, vec![2]);
    assert!(state.maybe_get_active(1).is_none());
    assert!(state.is_users_first_turn());
    state.turn_count = 3;
    assert!(!state.is_users_first_turn());
    state.set_knocked_out_by_opponent_attack_last_turn(true);
    assert!(state.get_knocked_out_by_opponent_attack_last_turn());
}

#[test]
fn test_discards_from_play() {
    let mut state = State::default();
    let mut pikachu = PlayedCard::from_id(CardId::A1094Pikachu)
        .with_energy(vec![EnergyType::Lightning, EnergyType::Fire, EnergyType::Lightning]);
    pikachu.attached_tool = Some(card(CardId::A4153SteelApron));
    state.in_play_pokemon[0][0] = Some(pikachu);
    state.discard_tool(0, 0);
    assert_eq!(state.get_active(0).attached_tool, None);
    assert_eq!(state.discard_piles[0], vec![card(CardId::A4153SteelApron)]);
    state.discard_from_active(0, &[EnergyType::Lightning, EnergyType::Fire]);
    assert_eq!(state.get_active(0).attached_energy, vec![EnergyType::Lightning]);
    assert_eq!(state.discard_energies[0], vec![EnergyType::Lightning, EnergyType::Fire]);

    state.hands[0] = (0..MAX_HAND_SIZE - 1).map(|_| card(CardId::PA001Potion)).collect();
    let mut ivysaur = PlayedCard::from_id(CardId::A1002Ivysaur);
    ivysaur.cards_behind = vec![card(CardId::A1001Bulbasaur)];
    state.in_play_pokemon[0][1] = Some(ivysaur);
    state.rescue_from_play(0, 1);
    // The hand takes Bulbasaur; Ivysaur finds no room and is discarded.
    assert!(state.in_play_pokemon[0][1].is_none());
    assert_eq!(state.hands[0].len(), MAX_HAND_SIZE);
    assert_eq!(state.hands[0][MAX_HAND_SIZE - 1], card(CardId::A1001Bulbasaur));
    assert_eq!(state.discard_piles[0].last(), Some(&card(CardId::A1002Ivysaur)));
}

#[test]
fn test_energy_immunity_and_copy() {
    let mut state = State::default();
    state.in_play_pokemon[0][0] = Some(PlayedCard::from_id(CardId::A1001Bulbasaur));
    state.apply_status_condition(0, 0, StatusCondition::Confused);
    state.enforce_energy_status_immunities(0);
    assert!(state.get_active(0).is_confused());
    let copy = state.copy();
    assert_eq!(copy, state);
}
