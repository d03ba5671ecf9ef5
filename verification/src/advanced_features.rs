pub mod adv_fun;
pub mod adv_type;
pub mod default_type_demo;
pub mod same_method;
pub mod trait_demo;
