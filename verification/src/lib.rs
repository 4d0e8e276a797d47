pub mod ability_ids;
pub mod actions;
pub mod apply_action;
pub mod attack_ids;
pub mod card_ids;
pub mod database;
pub mod deck;
pub mod errors;
pub mod game;
pub mod hidden_information;
pub mod hooks;
pub mod move_generation;
pub mod optimized_state;
pub mod players;
pub mod rng;
pub mod safe_state;
pub mod state;
pub mod test_helpers;
pub mod tool_ids;
pub mod trainer_actions;
pub mod types;

pub use ability_ids::AbilityId;
pub use attack_ids::AttackId;
pub use deck::Deck;
pub use errors::{GameError, GameResult};
pub use game::Game;
pub use move_generation::{generate_possible_actions, generate_possible_trainer_actions};
pub use state::State;
pub use types::EnergyType;
