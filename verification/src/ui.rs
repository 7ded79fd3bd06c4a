pub mod picker;
pub mod word_display;
