pub mod game;
pub mod hand;
pub mod input;
pub mod tiles;
pub mod yaku;
pub mod parser;
pub mod validate;
pub mod wait;
pub mod organize;
pub mod hand_tiles;
pub mod yakuman;
pub mod regular;
pub mod yaku_checker;
pub mod points;
pub mod akadora;
pub mod agari;
pub mod example;
pub mod exclusive;
