pub mod arith;
pub mod data;
pub mod engine;
pub mod screens;
pub mod text;
pub mod ui;
pub mod types;
