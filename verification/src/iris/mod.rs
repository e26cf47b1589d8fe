pub mod connection;
pub mod discovery;
pub mod vscode_config;
pub mod workspace_config;

pub use connection::{DiscoverySource, IrisConnection};
