//! The parameters of the requests the web interface sends.

use vstd::prelude::*;

verus! {

/// Archive the game's savegame `original_name` under the name `user_name`.
#[derive(Debug, PartialEq, Eq)]
pub struct MudrunnerSaveRequest {
    pub original_name: String,
    pub user_name: String,
}

/// Show the backups of the SnowRunner profile `id`.
#[derive(Debug, PartialEq, Eq)]
pub struct SnowRunnerProfileRequest {
    pub id: String,
}

/// Act on the SnowRunner profile `id`: archive it under the name `name`,
/// or delete or restore its backup whose identifier is `name`.
#[derive(Debug, PartialEq, Eq)]
pub struct SnowRunnerProfileSaveRequest {
    pub id: String,
    pub name: String,
}

} // verus!
