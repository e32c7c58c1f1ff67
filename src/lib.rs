pub mod history;
pub mod notify;
pub mod snapshot;
pub mod supervisor;
pub mod text;
