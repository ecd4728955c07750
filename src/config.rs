//! The user's settings: the player to launch and the Bilibili cookie.
use vstd::prelude::*;

verus! {

/// The external player and the arguments passed before the link.
pub struct Player {
    pub path: String,
    pub args: Vec<String>,
}

pub struct Bilibili {
    pub cookie: String,
}

pub struct PlatformConfig {
    pub bilibili: Bilibili,
}

/// The settings kept in the configuration file.
pub struct Config {
    pub player: Player,
    pub platform: PlatformConfig,
}

impl Config {
    /// The settings of a fresh installation: no player and no cookie.
    pub fn new() -> (r: Config)
        ensures
            r.player.path@.len() == 0,
            r.player.args@.len() == 0,
            r.platform.bilibili.cookie@.len() == 0,
    {
        Config {
            player: Player { path: String::new(), args: Vec::new() },
            platform: PlatformConfig { bilibili: Bilibili { cookie: String::new() } },
        }
    }
}

} // verus!
