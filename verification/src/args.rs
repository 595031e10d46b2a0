//! What the service is started with.

use std::path::PathBuf;

use vstd::prelude::*;

use crate::utils::MAINTAINER_USER_ID;

verus! {

/// A path in the file system, `std::path::PathBuf`: the library carries
/// paths through and never looks into one.
#[verifier::external_type_specification]
#[verifier::external_body]
pub struct ExPathBuf(PathBuf);

/// What the service is started with.
#[derive(Debug)]
pub struct Args {
    /// The file that holds the token of the service, if it is not to be
    /// taken from the environment.
    pub token_path: Option<PathBuf>,
    /// The file that the map of birthdays is saved to and restored from.
    pub backup_path: PathBuf,
    /// The user who maintains this instance, where that is not the one who
    /// maintains the service.
    pub maintainer_user_id: Option<u64>,
}

impl Args {
    /// The user who maintains this instance: the one named, or else the
    /// maintainer of the service.
    pub fn maintainer(&self) -> (user_id: u64)
        ensures
            user_id == match self.maintainer_user_id {
                Some(named) => named,
                None => MAINTAINER_USER_ID,
            },
    {
        match self.maintainer_user_id {
            Some(named) => named,
            None => MAINTAINER_USER_ID,
        }
    }
}

} // verus!
