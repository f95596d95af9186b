//! The persisted configuration, as plain values: the cached device and the
//! default profile. Loading and storing it is the caller's part.
use vstd::prelude::*;
use vstd::string::*;

verus! {

/// The device found last time.
#[derive(Clone, Debug)]
pub struct DeviceConfig {
    pub cached_pid: Option<u16>,
    pub model: Option<String>,
    pub model_prefix: Option<String>,
}

/// User preferences.
#[derive(Clone, Debug)]
pub struct SettingsConfig {
    pub default_profile: Option<String>,
}

#[derive(Clone, Debug)]
pub struct Config {
    pub device: DeviceConfig,
    pub settings: SettingsConfig,
}

impl Default for Config {
    fn default() -> (r: Config)
        ensures
            r.device.cached_pid is None,
            r.device.model is None,
            r.device.model_prefix is None,
            r.settings.default_profile is None,
    {
        Config {
            device: DeviceConfig { cached_pid: None, model: None, model_prefix: None },
            settings: SettingsConfig { default_profile: None },
        }
    }
}

/// A configuration together with the file it lives in.
pub struct ConfigManager {
    pub config: Config,
    pub path: String,
}

impl ConfigManager {
    pub fn new(config: Config, path: String) -> (r: ConfigManager)
        ensures
            r.config == config,
            r.path == path,
    {
        ConfigManager { config, path }
    }

    pub fn config(&self) -> (r: &Config)
        ensures
            *r == self.config,
    {
        &self.config
    }

    pub fn config_mut(&mut self) -> (r: &mut Config)
        ensures
            *r == old(self).config,
            final(self).config == *final(r),
            final(self).path == old(self).path,
    {
        &mut self.config
    }

    pub fn path(&self) -> (r: &String)
        ensures
            *r == self.path,
    {
        &self.path
    }

    /// The product id found last time, if any.
    pub fn get_cached_pid(&self) -> (r: Option<u16>)
        ensures
            r == self.config.device.cached_pid,
    {
        self.config.device.cached_pid
    }

    /// Remembers the device found; the settings are kept.
    pub fn set_cached_device(&mut self, pid: u16, model: &str, model_prefix: &str)
        ensures
            final(self).config.device.cached_pid == Some(pid),
            final(self).config.device.model is Some,
            final(self).config.device.model->Some_0@ == model@,
            final(self).config.device.model_prefix is Some,
            final(self).config.device.model_prefix->Some_0@ == model_prefix@,
            final(self).config.settings == old(self).config.settings,
            final(self).path == old(self).path,
    {
        self.config.device.cached_pid = Some(pid);
        self.config.device.model = Some(String::from_str(model));
        self.config.device.model_prefix = Some(String::from_str(model_prefix));
    }

    /// Forgets the device found; the settings are kept.
    pub fn clear_cache(&mut self)
        ensures
            final(self).config.device.cached_pid is None,
            final(self).config.device.model is None,
            final(self).config.device.model_prefix is None,
            final(self).config.settings == old(self).config.settings,
            final(self).path == old(self).path,
    {
        self.config.device.cached_pid = None;
        self.config.device.model = None;
        self.config.device.model_prefix = None;
    }
}

} // verus!
