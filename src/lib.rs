pub mod alerts;
pub mod creator;
pub mod digest;
pub mod keychain;
pub mod nodes;
pub mod runway;
pub mod store;
pub mod units;
pub mod validator;
