pub mod lifttime;
pub mod trait_def;
pub mod type_def;
