//! The parameter block of the tile's shader.

use vstd::prelude::*;
use crate::seed::CurrentSeed;

verus! {

/// The one parameter the tile's fragment shader reads: the seed. It is kept
/// here as the whole number it is; the host converts it when it uploads it
/// into the shader's 32-bit float slot.
#[derive(Clone, Copy, Debug, PartialEq, Eq, Structural)]
pub struct TileMaterial {
    pub seed: i64,
}

/// The binding index of the shader's uniform slot that holds the seed.
pub const SEED_BINDING: u32 = 0;

/// The path of the fragment shader that draws the tile.
pub open spec fn shader_path() -> Seq<char> {
    seq!['t', 'e', 's', 't', '.', 'w', 'g', 's', 'l']
}

impl TileMaterial {
    /// The material of a tile created while the seed is `seed`.
    pub fn new(seed: &CurrentSeed) -> (material: Self)
        ensures
            material.seed == seed@,
    {
        TileMaterial { seed: seed.value() }
    }

    /// Overwrites the parameter with `seed`.
    pub fn set_seed(&mut self, seed: &CurrentSeed)
        ensures
            final(self).seed == seed@,
    {
        self.seed = seed.value();
    }

    /// The path of the fragment shader that draws the tile.
    pub fn fragment_shader() -> (path: &'static str)
        ensures
            path@ == shader_path(),
    {
        proof {
            reveal_strlit("test.wgsl");
        }
        assert("test.wgsl"@ =~= shader_path());
        "test.wgsl"
    }
}

} // verus!
