//! The persisted settings: game options, Steam credentials and the folder the
//! server is installed in. Every value is kept as the text the user gave.
use vstd::prelude::*;

verus! {

/// Options handed to the game server on its command line.
pub struct GameConfig {
    pub port: String,
    pub hz: String,
    pub anticheat: String,
    pub max_ping: String,
    pub voxel_mode: String,
    pub api_endpoint: String,
}

/// Steam login, passed through to the installer tool as it is.
pub struct Credentials {
    pub username: String,
    pub password: String,
}

/// Everything the configuration file holds.
pub struct Config {
    pub game_config: GameConfig,
    pub credentials: Credentials,
    pub install_location: String,
}

impl Default for GameConfig {
    fn default() -> (r: GameConfig)
        ensures
            r.port@.len() == 0,
            r.hz@.len() == 0,
            r.anticheat@.len() == 0,
            r.max_ping@.len() == 0,
            r.voxel_mode@.len() == 0,
            r.api_endpoint@.len() == 0,
    {
        GameConfig {
            port: String::new(),
            hz: String::new(),
            anticheat: String::new(),
            max_ping: String::new(),
            voxel_mode: String::new(),
            api_endpoint: String::new(),
        }
    }
}

impl Default for Credentials {
    fn default() -> (r: Credentials)
        ensures
            r.username@.len() == 0,
            r.password@.len() == 0,
    {
        Credentials { username: String::new(), password: String::new() }
    }
}

impl Default for Config {
    fn default() -> (r: Config)
        ensures
            r.game_config.port@.len() == 0,
            r.game_config.hz@.len() == 0,
            r.game_config.anticheat@.len() == 0,
            r.game_config.max_ping@.len() == 0,
            r.game_config.voxel_mode@.len() == 0,
            r.game_config.api_endpoint@.len() == 0,
            r.credentials.username@.len() == 0,
            r.credentials.password@.len() == 0,
            r.install_location@.len() == 0,
    {
        Config {
            game_config: GameConfig::default(),
            credentials: Credentials::default(),
            install_location: String::new(),
        }
    }
}

impl Config {
    /// What is written when the user saves credentials or picks a folder:
    /// default game options with the given login and install folder.
    pub fn for_save(credentials: Credentials, install_location: String) -> (r: Config)
        ensures
            r.credentials == credentials,
            r.install_location == install_location,
            r.game_config.port@.len() == 0,
            r.game_config.hz@.len() == 0,
            r.game_config.anticheat@.len() == 0,
            r.game_config.max_ping@.len() == 0,
            r.game_config.voxel_mode@.len() == 0,
            r.game_config.api_endpoint@.len() == 0,
    {
        Config { game_config: GameConfig::default(), credentials, install_location }
    }
}

} // verus!
