pub mod branch;
pub mod changes;
pub mod colors;
pub mod numbers;
pub mod prompt;
pub mod repo;
pub mod settings;
