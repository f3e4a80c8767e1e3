pub mod apple;
pub mod board;
pub mod engine;
pub mod position;
pub mod snake;
