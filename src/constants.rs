use vstd::prelude::*;

verus! {

/// Fixed settings of the runtime.
pub struct Constants {}

impl Constants {
    /// Default for the validation layer; a manifest may override it.
    pub const ENABLE_VALIDATION_LAYER: bool = false;
    /// Default for the API dump layer; a manifest may override it.
    pub const ENABLE_API_DUMP_LAYER: bool = false;
    /// Number of in-flight frame slots.
    pub const FRAME_BUFFER_COUNT: usize = 2;
    /// The extended dynamic state capability is mandatory.
    pub const REQUIRE_EXTENDED_DYNAMIC_STATE: bool = true;
    /// Whether the richer extended dynamic state 3 capability is requested.
    pub const REQUIRE_EXTENDED_DYNAMIC_STATE3: bool = false;
    pub const DEFAULT_BLITTER_BATCH_CAPACITY: usize = 2048;
    pub const DEFAULT_FPS: u32 = 60;
}

} // verus!
