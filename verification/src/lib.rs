pub mod automation;
pub mod control;
pub mod host;
pub mod league;
pub mod policy;
pub mod settings;
pub mod steam;
pub mod text;
