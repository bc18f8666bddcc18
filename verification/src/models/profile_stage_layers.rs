//! Layers of a profile stage (the `profile_stage_layers` table).

use vstd::prelude::*;

verus! {

/// A layer of a profile stage.
#[derive(Debug, PartialEq, PartialOrd, Clone)]
pub struct ProfileStageLayer {
    /// The primary key.
    pub id: i32,
    /// Which stage this layer belongs to.
    pub video_stage_id: i32,
    /// The stacking order, ascending: larger covers smaller.
    pub order: i32,
    /// The raw layer data.
    pub layer_data: Vec<u8>,
}

} // verus!
