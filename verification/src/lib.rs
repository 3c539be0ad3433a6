pub mod capture;
pub mod decimal;
pub mod errors;
pub mod paths;
pub mod payload;
pub mod settings;
pub mod transcribe;
