//! Core of a savegame manager for MudRunner and SnowRunner: the error
//! model, the application settings, the bookkeeping of archived savegames
//! and the decisions taken around the file-system work.

pub mod appconfig;
pub mod error;
pub mod ids;
pub mod mud_runner_archive;
pub mod mud_runner_saves;
pub mod pages;
pub mod paths;
pub mod search;
pub mod snowrunner;
pub mod snowrunner_archive;
pub mod snowrunner_backups;
pub mod snowrunner_profiles;
pub mod timestamp;

pub use appconfig::Settings;
pub use error::AppError;
pub use mud_runner_saves::MudrunnerSave;
pub use snowrunner::{SavedProfile, SnowRunnerProfile};
pub use timestamp::Timestamp;
