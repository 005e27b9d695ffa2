pub mod account_id;
pub mod errors;
pub mod white_list;
pub mod hook;
pub mod bootstrap;
