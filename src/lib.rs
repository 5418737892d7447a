pub mod layout;
pub mod registry;
pub mod logs;
pub mod startup;
