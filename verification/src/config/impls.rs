//! Config services: file-watching and static.
//!
//! The file-watching service polls the configuration file on a timer: at each
//! tick it adopts a changed watch interval and reloads the file only when its
//! modification time differs from the last one seen.
use vstd::prelude::*;
use crate::config::error::ConfigError;

verus! {

/// Notify-based config service
pub struct NotifyConfigService {
    config_path: Option<String>,
}

impl NotifyConfigService {
    /// The watched file, if any.
    pub closed spec fn path(&self) -> Option<String> {
        self.config_path
    }

    /// Create a new NotifyConfigService. A path is refused with
    /// `FileNotFound` when the file does not exist (`exists` tells), and with
    /// `Io` carrying the reader's message when it exists but cannot be read
    /// (`read_error` tells: `None` when it can be read).
    pub fn new(config_path: Option<String>, exists: bool, read_error: Option<String>) -> (r: Result<Self, ConfigError>)
        ensures
            match config_path {
                Some(p) => if !exists {
                    r matches Err(ConfigError::FileNotFound(t)) && t@ == p@
                } else {
                    match read_error {
                        Some(e) => r matches Err(ConfigError::Io(t)) && t@ == e@,
                        None => r matches Ok(s) && s.path() == Some(p),
                    }
                },
                None => r matches Ok(s) && s.path() is None,
            },
    {
        match config_path {
            Some(p) => {
                if !exists {
                    return Err(ConfigError::FileNotFound(p));
                }
                match read_error {
                    Some(e) => Err(ConfigError::Io(e)),
                    None => Ok(NotifyConfigService { config_path: Some(p) }),
                }
            },
            None => Ok(NotifyConfigService { config_path: None }),
        }
    }

    /// The watched file, if any.
    pub fn config_path(&self) -> (r: Option<&str>)
        ensures
            match r {
                Some(t) => self.path() is Some && t@ == self.path()->0@,
                None => self.path() is None,
            },
    {
        match &self.config_path {
            Some(p) => Some(p.as_str()),
            None => None,
        }
    }
}

/// Static config service implementation (nothing to watch)
pub struct StaticConfigService;

impl StaticConfigService {
    /// Create a new StaticConfigService
    pub fn new() -> (r: Self) {
        StaticConfigService
    }
}

impl Default for StaticConfigService {
    fn default() -> (r: Self) {
        Self::new()
    }
}

/// What the watcher must do after a tick.
#[derive(Debug, Clone, Copy, PartialEq, Eq, Structural)]
pub struct WatchTick {
    /// The new polling interval, when the configured one changed
    pub new_interval_ms: Option<u64>,
    /// Whether the file changed and must be reloaded
    pub reload: bool,
}

/// Polling state of the file watcher.
pub struct ConfigWatcher {
    /// Polling interval currently in force, in milliseconds
    pub watch_interval_ms: u64,
    /// Last modification time seen (nanoseconds since the epoch), if known
    pub last_mtime: Option<u128>,
}

/// What a tick reports, given the watcher's state before it.
pub open spec fn tick_report(w: ConfigWatcher, configured_interval_ms: u64, mtime: Option<u128>) -> WatchTick {
    WatchTick {
        new_interval_ms: if configured_interval_ms != w.watch_interval_ms { Some(configured_interval_ms) } else { None },
        reload: mtime != w.last_mtime,
    }
}

/// The watcher's state after a tick.
pub open spec fn after_tick(configured_interval_ms: u64, mtime: Option<u128>) -> ConfigWatcher {
    ConfigWatcher { watch_interval_ms: configured_interval_ms, last_mtime: mtime }
}

impl ConfigWatcher {
    /// Starts watching with the configured interval and the file's current
    /// modification time.
    pub fn new(watch_interval_ms: u64, mtime: Option<u128>) -> (r: Self)
        ensures
            r == after_tick(watch_interval_ms, mtime),
    {
        ConfigWatcher { watch_interval_ms, last_mtime: mtime }
    }

    /// One polling tick: adopt a changed interval; reload when the
    /// modification time differs from the last one seen.
    pub fn on_tick(&mut self, configured_interval_ms: u64, mtime: Option<u128>) -> (r: WatchTick)
        ensures
            r == tick_report(*old(self), configured_interval_ms, mtime),
            *final(self) == after_tick(configured_interval_ms, mtime),
    {
        let new_interval_ms = if configured_interval_ms != self.watch_interval_ms {
            self.watch_interval_ms = configured_interval_ms;
            Some(configured_interval_ms)
        } else {
            None
        };
        let reload = mtime != self.last_mtime;
        if reload {
            self.last_mtime = mtime;
        }
        WatchTick { new_interval_ms, reload }
    }
}

/// Each change is acted on once: a tick that observes the same interval and
/// modification time as the previous tick asks for neither a new interval
/// nor a reload, whatever the state before the first tick was; and a tick
/// reloads exactly when the modification time changed.
pub proof fn lemma_reload_once(w: ConfigWatcher, interval: u64, mtime: Option<u128>)
    ensures
        tick_report(after_tick(interval, mtime), interval, mtime) == (WatchTick { new_interval_ms: None, reload: false }),
        tick_report(w, interval, mtime).reload <==> w.last_mtime != mtime,
{
}

} // verus!
