pub mod identifier;
pub mod sub_section;
pub mod section;
pub mod round;
pub mod random;
pub mod game_state;
pub mod killer_ai;
pub mod victim_ai;
