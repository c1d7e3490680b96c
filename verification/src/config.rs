use vstd::prelude::*;

verus! {

/// Settings of the hit boxes of one character (none so far).
#[derive(Clone, Copy, Debug, PartialEq, Eq, Structural)]
pub struct HitboxConfig {}

impl Default for HitboxConfig {
    fn default() -> (res: Self)
        ensures
            res == (HitboxConfig {}),
    {
        HitboxConfig {}
    }
}

/// Settings of one character.
#[derive(Clone, Copy, Debug, PartialEq, Eq, Structural)]
pub struct CharacterConfig {
    pub hitbox: HitboxConfig,
}

impl Default for CharacterConfig {
    fn default() -> (res: Self)
        ensures
            res == (CharacterConfig { hitbox: HitboxConfig {} }),
    {
        CharacterConfig { hitbox: HitboxConfig::default() }
    }
}

/// Whether players are highlighted, and the refresh delay in milliseconds.
#[derive(Clone, Copy, Debug, PartialEq, Eq, Structural)]
pub struct PlayerGlowConfig {
    pub enable: bool,
    pub delay: u16,
}

impl Default for PlayerGlowConfig {
    fn default() -> (res: Self)
        ensures
            !res.enable,
            res.delay == 0,
    {
        PlayerGlowConfig { enable: false, delay: 0 }
    }
}

/// Whether items are highlighted, and the refresh delay in milliseconds.
#[derive(Clone, Copy, Debug, PartialEq, Eq, Structural)]
pub struct ItemGlowConfig {
    pub enable: bool,
    pub delay: u16,
}

impl Default for ItemGlowConfig {
    fn default() -> (res: Self)
        ensures
            !res.enable,
            res.delay == 0,
    {
        ItemGlowConfig { enable: false, delay: 0 }
    }
}

} // verus!
