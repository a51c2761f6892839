//! The configuration of the program: what to watch, how long to wait
//! before switching off, and where Home Assistant is.

use vstd::prelude::*;
use vstd::string::StringExecFns;

verus! {

/// Application configuration.
#[derive(Clone)]
pub struct Config {
    pub power: PowerConfig,
    pub check: CheckConfig,
    pub homeassistant: HomeAssistantConfig,
}

/// Home Assistant configuration.
#[derive(Clone)]
pub struct HomeAssistantConfig {
    /// URL of Home Assistant instance.
    pub url: String,
    /// API key for Home Assistant instance.
    pub api_key: String,
    /// The name of the service used to control the entity.
    pub service: String,
    /// The entity ID to control.
    pub entity: String,
}

/// Processing checking configuration.
#[derive(Clone)]
pub struct CheckConfig {
    /// The name of the process to monitor.
    pub process_name: String,
    /// The interval to check for the process.
    pub interval: u64,
}

/// Power control configuration.
#[derive(Clone, Copy, Debug, PartialEq, Eq, Structural)]
pub struct PowerConfig {
    /// Delay after process has exited before turning off entity.
    pub delay: u64,
}

/// What a [`HomeAssistantConfig`] holds, as plain text.
pub ghost struct HomeAssistantConfigView {
    pub url: Seq<char>,
    pub api_key: Seq<char>,
    pub service: Seq<char>,
    pub entity: Seq<char>,
}

/// What a [`CheckConfig`] holds, as plain text and number.
pub ghost struct CheckConfigView {
    pub process_name: Seq<char>,
    pub interval: u64,
}

/// What a [`Config`] holds.
pub ghost struct ConfigView {
    pub power: PowerConfig,
    pub check: CheckConfigView,
    pub homeassistant: HomeAssistantConfigView,
}

impl View for HomeAssistantConfig {
    type V = HomeAssistantConfigView;

    open spec fn view(&self) -> HomeAssistantConfigView {
        HomeAssistantConfigView {
            url: self.url@,
            api_key: self.api_key@,
            service: self.service@,
            entity: self.entity@,
        }
    }
}

impl View for CheckConfig {
    type V = CheckConfigView;

    open spec fn view(&self) -> CheckConfigView {
        CheckConfigView { process_name: self.process_name@, interval: self.interval }
    }
}

impl View for Config {
    type V = ConfigView;

    open spec fn view(&self) -> ConfigView {
        ConfigView { power: self.power, check: self.check@, homeassistant: self.homeassistant@ }
    }
}

/// Name of file to use for configuration.
pub const CONFIG_NAME: &'static str = "config.toml";

/// Seconds to wait after the process has gone before switching off, unless
/// the configuration says otherwise.
pub const DEFAULT_DELAY: u64 = 60;

/// Seconds between two looks at the process table, unless the
/// configuration says otherwise.
pub const DEFAULT_INTERVAL: u64 = 3;

impl CheckConfigView {
    /// A watcher can run on this: it has to pause for at least a second
    /// between two polls.
    pub open spec fn is_valid(self) -> bool {
        self.interval >= 1
    }
}

impl CheckConfig {
    /// Whether the interval between polls is at least one second.
    pub fn is_valid(&self) -> (valid: bool)
        ensures
            valid == self@.is_valid(),
    {
        self.interval >= 1
    }
}

impl ConfigView {
    /// The configuration of a fresh setup: the three values that were asked
    /// for, and for the rest the SteamVR server process checked every three
    /// seconds, a minute's grace before switching off, and a switch entity.
    pub open spec fn with_defaults(
        url: Seq<char>,
        api_key: Seq<char>,
        entity: Seq<char>,
    ) -> ConfigView {
        ConfigView {
            power: PowerConfig { delay: DEFAULT_DELAY },
            check: CheckConfigView { process_name: "vrserver.exe"@, interval: DEFAULT_INTERVAL },
            homeassistant: HomeAssistantConfigView {
                url,
                api_key,
                service: "switch"@,
                entity,
            },
        }
    }
}

impl Config {
    /// Builds the configuration of a fresh setup from the three values that
    /// the user gave, taken as they are.
    pub fn with_defaults(url: String, api_key: String, entity: String) -> (config: Config)
        ensures
            config@ == ConfigView::with_defaults(url@, api_key@, entity@),
            config.check@.is_valid(),
    {
        Config {
            power: PowerConfig { delay: DEFAULT_DELAY },
            check: CheckConfig {
                process_name: String::from_str("vrserver.exe"),
                interval: DEFAULT_INTERVAL,
            },
            homeassistant: HomeAssistantConfig {
                url,
                api_key,
                service: String::from_str("switch"),
                entity,
            },
        }
    }
}

} // verus!
