pub mod languages;
pub mod themes;
