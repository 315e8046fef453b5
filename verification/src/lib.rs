pub mod game;
pub mod laws;

pub use game::Game;
pub use game::PlayError;
pub use game::Symbol;
