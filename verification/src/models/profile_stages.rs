//! Stages of a profile (the `profile_stages` table).

use vstd::prelude::*;

verus! {

/// A stage of a profile.
#[derive(Debug, PartialEq, PartialOrd, Clone)]
pub struct ProfileStage {
    pub id: i32,
    pub profile_id: i32,
    pub name: String,
    pub last_stage: Option<i32>,
}

} // verus!
