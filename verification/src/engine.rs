pub mod input_processor;
pub mod stats_calculator;
pub mod word_generator;
pub mod timer;
