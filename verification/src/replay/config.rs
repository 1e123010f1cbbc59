//! Replayer configuration: the environment variables the replayer reads at
//! bootstrap, and the exact settings a configuration stands for.

use crate::replay::util::{decimal, decimal_text};
use vstd::prelude::*;
use vstd::string::*;

verus! {

/// Loads resources the capture never used.
pub const FORCE_LOAD_UNUSED_RESOURCE: &'static str = "MTLREPLAYER_FORCE_LOAD_UNUSED_RESOURCE";

/// Skips resources the capture never used.
pub const IGNORE_UNUSED_RESOURCE: &'static str = "MTLREPLAYER_IGNORE_UNUSED_RESOURCE";

/// Replays on the device with the given registry id.
pub const OVERRIDE_DEVICE_REGISTRY_ID: &'static str = "MTLREPLAYER_OVERRIDE_DEVICE_REGISTRY_ID";

/// Replayer configuration, applied through environment variables before a
/// session opens.
#[derive(Debug, Clone)]
pub struct ReplayerConfig {
    /// Load resources the capture never used.
    pub force_load_unused_resources: bool,
    /// Skip resources the capture never used.
    pub ignore_unused_resources: bool,
    /// Replay on the device with this registry id.
    pub device_registry_id: Option<u64>,
}

impl Default for ReplayerConfig {
    fn default() -> (r: ReplayerConfig)
        ensures
            !r.force_load_unused_resources,
            !r.ignore_unused_resources,
            r.device_registry_id is None,
    {
        ReplayerConfig {
            force_load_unused_resources: false,
            ignore_unused_resources: false,
            device_registry_id: None,
        }
    }
}

/// What a configuration does to one variable: set it to a value, or
/// remove it.
#[derive(Debug)]
pub struct EnvSetting {
    /// The variable.
    pub name: &'static str,
    /// Its new value, or `None` to remove it.
    pub value: Option<String>,
}

/// A flag's value: `"1"` when on, removed when off.
pub open spec fn flag_value(on: bool) -> Option<Seq<char>> {
    if on {
        Some("1"@)
    } else {
        None
    }
}

/// The settings a configuration stands for, as `(name, value)` pairs.
pub open spec fn env_settings(settings: Seq<EnvSetting>) -> Seq<(Seq<char>, Option<Seq<char>>)> {
    Seq::new(
        settings.len(),
        |i: int|
            (
                settings[i].name@,
                match settings[i].value {
                    Some(v) => Some(v@),
                    None => None,
                },
            ),
    )
}

impl ReplayerConfig {
    /// The settings this configuration stands for: each of the three
    /// variables it owns is set or removed, so it is authoritative over
    /// them. Flags are set to `"1"` when on; the registry id to its decimal
    /// text.
    pub open spec fn spec_env(&self) -> Seq<(Seq<char>, Option<Seq<char>>)> {
        seq![
            (FORCE_LOAD_UNUSED_RESOURCE@, flag_value(self.force_load_unused_resources)),
            (IGNORE_UNUSED_RESOURCE@, flag_value(self.ignore_unused_resources)),
            (
                OVERRIDE_DEVICE_REGISTRY_ID@,
                match self.device_registry_id {
                    Some(id) => Some(decimal(id as nat)),
                    None => None,
                },
            ),
        ]
    }

    /// The settings to apply, in order (see [`ReplayerConfig::spec_env`]).
    pub fn env_plan(&self) -> (r: Vec<EnvSetting>)
        ensures
            env_settings(r@) == self.spec_env(),
    {
        let force = if self.force_load_unused_resources {
            Some(String::from_str("1"))
        } else {
            None
        };
        let ignore = if self.ignore_unused_resources {
            Some(String::from_str("1"))
        } else {
            None
        };
        let registry = match self.device_registry_id {
            Some(id) => Some(decimal_text(id)),
            None => None,
        };
        let mut v: Vec<EnvSetting> = Vec::new();
        v.push(EnvSetting { name: FORCE_LOAD_UNUSED_RESOURCE, value: force });
        v.push(EnvSetting { name: IGNORE_UNUSED_RESOURCE, value: ignore });
        v.push(EnvSetting { name: OVERRIDE_DEVICE_REGISTRY_ID, value: registry });
        assert(env_settings(v@) =~= self.spec_env());
        v
    }
}

} // verus!
