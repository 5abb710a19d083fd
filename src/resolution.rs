use vstd::prelude::*;

verus! {

/// Micro-units per column.
pub const DEFAULT_X_RESOLUTION: i32 = 12;

/// Micro-units per line.
pub const DEFAULT_Y_RESOLUTION: i32 = 16;

/// Size of one column (`x`) and one line (`y`) in micro-units.
#[derive(PartialEq, Eq, Structural, Debug, Clone, Copy)]
pub struct Resolution {
    pub x: i32,
    pub y: i32,
}

impl Default for Resolution {
    fn default() -> (r: Self)
        ensures
            r == (Resolution { x: DEFAULT_X_RESOLUTION, y: DEFAULT_Y_RESOLUTION }),
    {
        Resolution { x: DEFAULT_X_RESOLUTION, y: DEFAULT_Y_RESOLUTION }
    }
}

} // verus!
