pub mod soap;
pub mod search;
