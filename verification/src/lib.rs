pub mod actions;
pub mod attack_ids;
pub mod card_ids;
pub mod database;
pub mod deck;
pub mod deck_text;
pub mod effects;
pub mod game;
pub mod gym_wrapper;
pub mod hooks;
pub mod models;
pub mod move_generation;
pub mod rng;
pub mod state;
pub mod text;

pub use attack_ids::AttackId;
pub use deck::Deck;
pub use game::Game;
pub use hooks::to_playable_card;
pub use move_generation::generate_possible_actions;
pub use state::State;
