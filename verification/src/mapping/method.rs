//! Methods whose name in the game depends on the game's version.

use crate::mapping::minecraft_version::MinecraftVersion;
use vstd::prelude::*;

verus! {

/// A method that the game has renamed between versions.
#[derive(Debug, Clone, Copy)]
pub enum MethodName {
    /// The accessor of the native window handle.
    WindowGetWindow,
}

impl MethodName {
    /// The name that the method has in the given version of the game: the
    /// window accessor is `getWindow` before 1.21.9 and `handle` from then
    /// on.
    pub open spec fn name_in(self, version: MinecraftVersion) -> Seq<char> {
        match self {
            MethodName::WindowGetWindow => if version.earlier_than(
                MinecraftVersion { major: 1, minor: 21, patch: 9 },
            ) {
                "getWindow"@
            } else {
                "handle"@
            },
        }
    }

    /// The name of the method in the given version of the game.
    pub fn get_name(&self, minecraft_version: MinecraftVersion) -> (name: &'static str)
        ensures
            name@ == self.name_in(minecraft_version),
    {
        match self {
            MethodName::WindowGetWindow => {
                if minecraft_version < MinecraftVersion::new(1, 21, 9) {
                    "getWindow"
                } else {
                    "handle"
                }
            },
        }
    }
}

} // verus!
