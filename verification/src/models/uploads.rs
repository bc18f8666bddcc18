//! Uploads of a run (the `uploads` table).

use vstd::prelude::*;

use crate::utils::time::UtcDateTime;

verus! {

/// An upload of a run to a platform.
#[derive(Debug, PartialEq, PartialOrd, Clone)]
pub struct Uploads {
    pub id: i32,
    pub upload_platform_id: i32,
    pub run_id: i32,
    pub generated_url: i32,
    pub uploaded_at: UtcDateTime,
}

} // verus!
