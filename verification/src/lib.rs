/// Built-in word lists the rounds draw from.
pub mod data;
/// The game state and the keyboard hint board.
pub mod model;
/// The update engine: the state machine driving a round and its reveal
/// animation.
pub mod update;
/// The letter comparator and the hint aggregator.
pub mod utils;
