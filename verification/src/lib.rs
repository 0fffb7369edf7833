//! Point-in-time score lookup over a sparse, strictly offset-ordered sequence
//! of game stamps.

pub mod error;
pub mod generator;
pub mod lookup;
pub mod stamp;

pub use error::GetScoreError;
pub use generator::TIMESTAMPS_COUNT;
pub use generator::generate_game;
pub use lookup::get_score;
pub use stamp::Score;
pub use stamp::Stamp;
