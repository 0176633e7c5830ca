use vstd::prelude::*;

verus! {

/// Default inclusive x range of a search.
pub fn x_bounds_default() -> (r: (i32, i32))
    ensures
        r == (-10000i32, 10000i32),
{
    (-10000, 10000)
}

/// Default inclusive y range of a search.
pub fn y_bounds_default() -> (r: (i32, i32))
    ensures
        r == (10i32, 60i32),
{
    (10, 60)
}

/// Default inclusive z range of a search.
pub fn z_bounds_default() -> (r: (i32, i32))
    ensures
        r == (-10000i32, 10000i32),
{
    (-10000, 10000)
}

/// Which classification a constraint is checked against.
#[derive(PartialEq, Eq, Structural, Clone, Copy, Debug)]
pub enum InfoType {
    /// Four-valued face orientation.
    TopsAndBottoms,
    /// Two-valued side orientation.
    Sides,
}

/// One constraint: the block at the given offset from the candidate origin
/// must show the given orientation.
#[derive(PartialEq, Eq, Structural, Clone, Copy, Debug)]
pub struct RotationInfo {
    pub info_type: InfoType,
    pub x: i32,
    pub y: i32,
    pub z: i32,
    pub rotation: i32,
}

impl RotationInfo {
    /// The expected orientation lies in the range of its class.
    pub open spec fn wf(&self) -> bool {
        match self.info_type {
            InfoType::TopsAndBottoms => 0 <= self.rotation <= 3,
            InfoType::Sides => 0 <= self.rotation <= 1,
        }
    }

    /// Builds a constraint from its configured form: a side constraint keeps
    /// its rotation modulo 2, a face constraint keeps it as it is and must lie
    /// in 0..=3, else there is no constraint.
    pub fn from_config(x: i32, y: i32, z: i32, rotation: i32, is_side: bool) -> (r: Option<Self>)
        ensures
            is_side ==> r == Some(
                (RotationInfo { info_type: InfoType::Sides, x, y, z, rotation: (rotation % 2) as i32 }),
            ),
            !is_side && 0 <= rotation <= 3 ==> r == Some(
                (RotationInfo { info_type: InfoType::TopsAndBottoms, x, y, z, rotation }),
            ),
            !is_side && !(0 <= rotation <= 3) ==> r is None,
            r matches Some(c) ==> c.wf(),
    {
        if is_side {
            let shifted: i64 = rotation as i64 + 2147483648i64;
            let m: i32 = (shifted % 2) as i32;
            assert(m == rotation % 2) by {
                assert((rotation as int + 2147483648) % 2 == (rotation as int) % 2);
            }
            Some(RotationInfo { info_type: InfoType::Sides, x, y, z, rotation: m })
        } else if 0 <= rotation && rotation <= 3 {
            Some(RotationInfo { info_type: InfoType::TopsAndBottoms, x, y, z, rotation })
        } else {
            None
        }
    }
}

/// A search: the algorithm family, the inclusive bounds and the constraints.
pub struct Formation {
    pub sodium: bool,
    pub x_min: i32,
    pub x_max: i32,
    pub y_min: i32,
    pub y_max: i32,
    pub z_min: i32,
    pub z_max: i32,
    pub rotation_info: Vec<RotationInfo>,
}

} // verus!
