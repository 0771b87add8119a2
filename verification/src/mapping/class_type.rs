//! The game classes that the mapping knows by a fixed name.

use vstd::prelude::*;

verus! {

/// A game class, named independently of any obfuscation.
#[allow(dead_code)]
#[derive(Debug, Copy, Clone, PartialEq, Eq)]
pub enum MinecraftClassType {
    Minecraft,
    LocalPlayer,
    Level,
    Player,
    Abilities,
    Entity,
    Vec3,
    Window,
}

impl MinecraftClassType {
    /// The readable, slash-separated name of the class.
    pub open spec fn name(self) -> Seq<char> {
        match self {
            MinecraftClassType::Minecraft => "net/minecraft/client/Minecraft"@,
            MinecraftClassType::LocalPlayer => "net/minecraft/client/player/LocalPlayer"@,
            MinecraftClassType::Level => "net/minecraft/client/multiplayer/ClientLevel"@,
            MinecraftClassType::Player => "net/minecraft/world/entity/player/Player"@,
            MinecraftClassType::Abilities => "net/minecraft/world/entity/player/Abilities"@,
            MinecraftClassType::Entity => "net/minecraft/world/entity/Entity"@,
            MinecraftClassType::Vec3 => "net/minecraft/world/phys/Vec3"@,
            MinecraftClassType::Window => "com/mojang/blaze3d/platform/Window"@,
        }
    }

    /// The name under which the mapping lists the class.
    pub fn get_name(&self) -> (name: &'static str)
        ensures
            name@ == self.name(),
    {
        match self {
            MinecraftClassType::Minecraft => "net/minecraft/client/Minecraft",
            MinecraftClassType::LocalPlayer => "net/minecraft/client/player/LocalPlayer",
            MinecraftClassType::Level => "net/minecraft/client/multiplayer/ClientLevel",
            MinecraftClassType::Player => "net/minecraft/world/entity/player/Player",
            MinecraftClassType::Abilities => "net/minecraft/world/entity/player/Abilities",
            MinecraftClassType::Entity => "net/minecraft/world/entity/Entity",
            MinecraftClassType::Vec3 => "net/minecraft/world/phys/Vec3",
            MinecraftClassType::Window => "com/mojang/blaze3d/platform/Window",
        }
    }
}

} // verus!
