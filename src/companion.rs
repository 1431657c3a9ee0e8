//! The companion's description as configured: its size, speed, and sprites.
use std::collections::HashMap;
use vstd::prelude::*;

verus! {

/// Basic companion metadata.
#[derive(Debug, Clone)]
pub struct Companion {
    pub name: String,
    /// Where the companion's own configuration and sprites are kept.
    pub path: String,
    /// Width of the sprite, in pixels.
    pub width: u32,
    /// Height of the sprite, in pixels.
    pub height: u32,
    /// Walking speed, in pixels a second.
    pub walkspeed: u32,
}

/// One sprite image of an animation.
#[derive(Debug, Clone)]
pub struct Sprite {
    pub path: String,
}

/// The sprites of each of a companion's animations, by animation name.
#[derive(Debug, Clone)]
pub struct CompanionConfig {
    pub animations: HashMap<String, Vec<Sprite>>,
}

/// All the companions that are configured.
#[derive(Debug, Clone)]
pub struct AppConfig {
    pub companion: Vec<Companion>,
}

} // verus!
