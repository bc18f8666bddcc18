//! Runs of a profile (the `runs` table).

use vstd::prelude::*;

use crate::utils::time::UtcDateTime;

verus! {

/// A run of a profile.
#[derive(Debug, PartialEq, PartialOrd, Clone)]
pub struct Run {
    pub id: i32,
    pub profile_id: i32,
    pub error: Option<String>,
    pub processing: Vec<String>,
    pub started_at: UtcDateTime,
    pub finished_at: UtcDateTime,
}

} // verus!
