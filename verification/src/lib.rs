pub mod args;
pub mod clock;
pub mod config;
pub mod cycle;
pub mod messages;
pub mod numfmt;
pub mod outcome;

pub use config::default_true;
pub use config::BackupJob;
pub use config::Config;
pub use config::Logging;
pub use config::Maintenance;
pub use config::Notifications;
pub use config::Options;
pub use config::Repository;
pub use config::Retention;
pub use config::Security;
