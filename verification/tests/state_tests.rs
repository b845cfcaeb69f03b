use deckgym::card_ids::CardId;
use deckgym::database::get_card_by_enum;
use deckgym::deck::{is_basic, Deck};
use deckgym::hooks::to_playable_card;
use deckgym::models::{Card, EnergyType};
use deckgym::state::{State, MAX_HAND_SIZE};
use rand::rngs::StdRng;
use rand::SeedableRng;

fn deck_of(ids: &[CardId], energy: EnergyType) -> Deck {
    let cards: Vec<Card> = ids.iter().map(|id| get_card_by_enum(*id)).collect();
    Deck::new(cards, vec![energy])
}

fn load_test_decks() -> (Deck, Deck) {
    let ids = [
        CardId::A1001Bulbasaur,
        CardId::A1001Bulbasaur,
        CardId::A1002Ivysaur,
        CardId::A1002Ivysaur,
        CardId::A1033Charmander,
        CardId::A1033Charmander,
        CardId::A1094Pikachu,
        CardId::A1094Pikachu,
        CardId::B2165Minun,
        CardId::B2165Minun,
        CardId::A4b122Wishiwashi,
        CardId::A4b122Wishiwashi,
        CardId::A3166TapuKoko,
        CardId::A3166TapuKoko,
        CardId::PA001Potion,
        CardId::PA001Potion,
        CardId::PA007ProfessorsResearch,
        CardId::PA007ProfessorsResearch,
        CardId::A3b067Leftovers,
        CardId::A4153SteelApron,
    ];
    (deck_of(&ids, EnergyType::Grass), deck_of(&ids, EnergyType::Water))
}

#[test]
fn test_draw_transfers_to_hand() {
    let (deck_a, deck_b) = load_test_decks();
    let mut state = State::new(&deck_a, &deck_b);

    assert_eq!(state.decks[0].cards.len(), 20);
    assert_eq!(state.hands[0].len(), 0);

    state.maybe_draw_card(0);

    assert_eq!(state.decks[0].cards.len(), 19);
    assert_eq!(state.hands[0].len(), 1);
}

#[test]
fn test_draw_stops_at_hand_limit() {
    let (deck_a, deck_b) = load_test_decks();
    let mut state = State::new(&deck_a, &deck_b);
    state.hands[0] = (0..MAX_HAND_SIZE)
        .map(|_| get_card_by_enum(CardId::PA001Potion))
        .collect();

    let deck_len_before = state.decks[0].cards.len();
    state.maybe_draw_card(0);

    assert_eq!(state.hands[0].len(), MAX_HAND_SIZE);
    assert_eq!(state.decks[0].cards.len(), deck_len_before);
}

#[test]
fn test_transfer_from_deck_to_hand_stops_at_hand_limit() {
    let (deck_a, deck_b) = load_test_decks();
    let mut state = State::new(&deck_a, &deck_b);
    state.hands[0] = (0..MAX_HAND_SIZE)
        .map(|_| get_card_by_enum(CardId::PA001Potion))
        .collect();

    let card = state.decks[0].cards[0].clone();
    let deck_len_before = state.decks[0].cards.len();
    state.transfer_card_from_deck_to_hand(0, &card);

    assert_eq!(state.hands[0].len(), MAX_HAND_SIZE);
    assert_eq!(state.decks[0].cards.len(), deck_len_before);
    assert!(state.decks[0].cards.contains(&card));
}

#[test]
fn test_add_cards_to_hand_returns_overflow_at_hand_limit() {
    let (deck_a, deck_b) = load_test_decks();
    let mut state = State::new(&deck_a, &deck_b);
    state.hands[0] = (0..9)
        .map(|_| get_card_by_enum(CardId::PA001Potion))
        .collect();

    let overflow = state.add_cards_to_hand(
        0,
        vec![
            get_card_by_enum(CardId::A1001Bulbasaur),
            get_card_by_enum(CardId::A1033Charmander),
        ],
    );

    assert_eq!(state.hands[0].len(), MAX_HAND_SIZE);
    assert_eq!(overflow.len(), 1);
    assert_eq!(overflow[0].get_name(), "Charmander");
}

#[test]
fn test_players_start_with_five_cards_one_of_which_is_basic() {
    let (deck_a, deck_b) = load_test_decks();
    let state = State::initialize(&deck_a, &deck_b, &mut StdRng::from_entropy());

    assert_eq!(state.hands[0].len(), 5);
    assert_eq!(state.hands[1].len(), 5);
    assert_eq!(state.decks[0].cards.len(), 15);
    assert_eq!(state.decks[1].cards.len(), 15);
    assert!(state.hands[0].iter().any(is_basic));
    assert!(state.hands[1].iter().any(is_basic));
}

#[test]
fn test_discard_from_play_basic_pokemon() {
    // Arrange: Create a state with a basic Pokemon in play
    let (deck_a, deck_b) = load_test_decks();
    let mut state = State::new(&deck_a, &deck_b);

    let bulbasaur_card = get_card_by_enum(CardId::A1001Bulbasaur);
    let played_bulbasaur = to_playable_card(&bulbasaur_card, false);

    // Place Bulbasaur in active slot for player 0
    state.in_play_pokemon[0][0] = Some(played_bulbasaur.clone());

    // Attach some energy to test energy discard
    state.attach_energy_from_zone(0, 0, EnergyType::Grass, 2, false);

    // Verify initial state
    assert!(state.in_play_pokemon[0][0].is_some());
    assert_eq!(state.discard_piles[0].len(), 0);
    assert_eq!(state.discard_energies[0].len(), 0);

    // Act: Discard the Pokemon from play
    state.discard_from_play(0, 0);

    // Assert: Pokemon slot is now empty
    assert!(state.in_play_pokemon[0][0].is_none());

    // Assert: Card is in discard pile
    assert_eq!(state.discard_piles[0].len(), 1);
    assert_eq!(state.discard_piles[0][0], bulbasaur_card);

    // Assert: Energy is in discard energy pile
    assert_eq!(state.discard_energies[0].len(), 2);
    assert_eq!(state.discard_energies[0][0], EnergyType::Grass);
    assert_eq!(state.discard_energies[0][1], EnergyType::Grass);
}
