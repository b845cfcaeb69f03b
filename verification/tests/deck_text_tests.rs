use deckgym::card_ids::CardId;
use deckgym::deck::Deck;
use deckgym::models::EnergyType;

fn ids(deck: &Deck) -> Vec<CardId> {
    deck.cards.iter().map(|c| c.id).collect()
}

#[test]
fn test_deck_text_cards_and_energy() {
    let deck = Deck::from_string("Energy: Grass\n2 Bulbasaur A1 1\n1 Ivysaur A1 002\n2 Professor's Research P-A 7\n").unwrap();
    assert_eq!(
        ids(&deck),
        vec![
            CardId::A1001Bulbasaur,
            CardId::A1001Bulbasaur,
            CardId::A1002Ivysaur,
            CardId::PA007ProfessorsResearch,
            CardId::PA007ProfessorsResearch,
        ]
    );
    assert_eq!(deck.energy_types, vec![EnergyType::Grass]);
}

#[test]
fn test_deck_text_blank_lines_and_spacing() {
    let deck = Deck::from_string("\r\n  Energy: Water,  Lightning \r\n\r\n 1   Tapu  Koko   A3 166 \r\n").unwrap();
    assert_eq!(ids(&deck), vec![CardId::A3166TapuKoko]);
    assert_eq!(deck.energy_types, vec![EnergyType::Water, EnergyType::Lightning]);
    let empty = Deck::from_string("").unwrap();
    assert!(empty.cards.is_empty() && empty.energy_types.is_empty());
}

#[test]
fn test_deck_text_rejects_bad_lines() {
    assert!(Deck::from_string("2 Mystery Z9 1").is_err());
    assert!(Deck::from_string("two Bulbasaur A1 1").is_err());
    assert!(Deck::from_string("1000 Bulbasaur A1 1").is_err());
    assert!(Deck::from_string("2 A1").is_err());
    assert!(Deck::from_string("2 Bulbasaur A1 x1").is_err());
    assert!(Deck::from_string("Energy: Sparkle").is_err());
    assert!(Deck::from_string("Energy:").is_err());
    assert!(Deck::from_string("Energy: Grass\n2 Bulbasaur A1 1\noops").is_err());
}

#[test]
fn test_deck_text_zero_copies() {
    let deck = Deck::from_string("0 Bulbasaur A1 1\n3 Pikachu A1 94").unwrap();
    assert_eq!(ids(&deck), vec![CardId::A1094Pikachu, CardId::A1094Pikachu, CardId::A1094Pikachu]);
}
