pub mod articles;
pub mod common;
pub mod favorites;
pub mod profiles;
pub mod users;
