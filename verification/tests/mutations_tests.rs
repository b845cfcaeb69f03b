use deckgym::actions::mutations::{apply_effect, build_status_effect};
use deckgym::actions::{Action, SimpleAction};
use deckgym::card_ids::CardId;
use deckgym::database::get_card_by_enum;
use deckgym::hooks::to_playable_card;
use deckgym::models::StatusCondition;
use deckgym::state::State;
use rand::rngs::StdRng;
use rand::SeedableRng;

#[test]
fn test_build_status_effect() {
    let mut state = State::default();
    let action = Action {
        actor: 0,
        action: SimpleAction::EndTurn,
        is_stack: false,
    };
    let bulbasuar = get_card_by_enum(CardId::A1001Bulbasaur);
    state.in_play_pokemon[1][0] = Some(to_playable_card(&bulbasuar, false));
    let effect = build_status_effect(StatusCondition::Asleep);
    let mut rng = StdRng::seed_from_u64(0);
    apply_effect(&effect, &mut rng, &mut state, &action);
    assert!(state.get_active(1).asleep);
}

#[test]
fn test_arceus_avoids_status() {
    let mut state = State::default();
    let action = Action {
        actor: 0,
        action: SimpleAction::EndTurn,
        is_stack: false,
    };
    let arceus = get_card_by_enum(CardId::A2a071ArceusEx);
    state.in_play_pokemon[1][0] = Some(to_playable_card(&arceus, false));
    let effect = build_status_effect(StatusCondition::Asleep);
    let mut rng = StdRng::seed_from_u64(0);
    apply_effect(&effect, &mut rng, &mut state, &action);
    assert!(!state.get_active(1).asleep);
}
