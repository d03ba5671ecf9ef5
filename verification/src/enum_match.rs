pub mod enum_def;
pub mod match_def;
