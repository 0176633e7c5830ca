pub mod search;
pub mod texture;
pub mod utils;

pub use texture::{
    get_coordinate_random, get_texture_side, get_texture_side_sodium, get_texture_top,
    get_texture_top_sodium, sodium_random, stafford_mix_13,
};
pub use search::{find, find_at_x, matches_at, satisfies};
pub use utils::{Formation, InfoType, RotationInfo};
