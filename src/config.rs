use vstd::prelude::*;

use watch::{WatchReceiver, WatchSender};

use crate::broadcast::{channel, latest, latest_if_new, send, subscribe};
pub use crate::unit::Unit;

verus! {

/// A rate limit that can be switched off and on again without losing its
/// value, which is always positive.
#[derive(Debug, Clone, Copy, PartialEq, Eq, Structural, PartialOrd, Ord)]
pub struct SpeedLimit {
    limit: u32,
    enabled: bool,
}

impl SpeedLimit {
    #[verifier::type_invariant]
    spec fn inv(self) -> bool {
        self.limit >= 1
    }

    /// The limit's value, in units per second.
    pub closed spec fn value(self) -> u32 {
        self.limit
    }

    /// Whether the limit applies.
    pub closed spec fn is_enabled(self) -> bool {
        self.enabled
    }

    /// The limit that applies, if any.
    pub open spec fn applied(self) -> Option<u32> {
        if self.is_enabled() {
            Some(self.value())
        } else {
            None
        }
    }

    /// The limit that applies, if any; it is positive.
    pub fn limit(&self) -> (r: Option<u32>)
        ensures
            r == self.applied(),
            r matches Some(l) ==> l >= 1,
    {
        proof {
            use_type_invariant(self);
        }
        if self.enabled {
            Some(self.limit)
        } else {
            None
        }
    }

    /// Switches the limit off if it was on and on if it was off, keeping its
    /// value; returns whether it was on.
    pub fn toggle(&mut self) -> (r: bool)
        ensures
            r == old(self).is_enabled(),
            final(self).is_enabled() == !old(self).is_enabled(),
            final(self).value() == old(self).value(),
    {
        proof {
            use_type_invariant(&*self);
        }
        let enabled = self.enabled;
        *self = SpeedLimit { limit: self.limit, enabled: !enabled };
        enabled
    }

    /// The limit `limit`, switched on; `None` and zero give the default,
    /// which is off.
    pub fn from_limit(limit: Option<u32>) -> (r: Self)
        ensures
            r.applied() == (match limit {
                Some(l) => if l >= 1 {
                    Some(l)
                } else {
                    None
                },
                None => None,
            }),
            (limit matches Some(l) && l >= 1) ==> r.value() == limit->0,
            !(limit matches Some(l) && l >= 1) ==> r == Self::spec_default(),
    {
        match limit {
            Some(l) => if l >= 1 {
                SpeedLimit { limit: l, enabled: true }
            } else {
                Self::default()
            },
            None => Self::default(),
        }
    }

    /// The default limit: one unit per second, switched off.
    pub closed spec fn spec_default() -> Self {
        SpeedLimit { limit: 1, enabled: false }
    }
}

impl Default for SpeedLimit {
    fn default() -> (r: Self)
        ensures
            r == Self::spec_default(),
            r.value() == 1,
            !r.is_enabled(),
    {
        SpeedLimit { limit: 1, enabled: false }
    }
}

/// A snapshot of the configuration of a transfer.
#[derive(Debug, Clone, Copy)]
pub struct Config {
    /// The rate limit.
    pub limit: SpeedLimit,
    /// The unit in which the limit and the progress are counted.
    pub unit: Unit,
    /// The expected size of the input in bytes, positive when present.
    pub expected_size: Option<usize>,
}

impl Config {
    /// The default configuration: no limit, counted in bytes, no expected
    /// size.
    pub open spec fn spec_default() -> Self {
        Config { limit: SpeedLimit::spec_default(), unit: Unit::Byte, expected_size: None }
    }
}

impl Default for Config {
    fn default() -> (r: Self)
        ensures
            r == Config::spec_default(),
    {
        Config { limit: SpeedLimit::default(), unit: Unit::Byte, expected_size: None }
    }
}

impl Config {
    /// The limit that applies, if any; it is positive.
    pub fn limit(&self) -> (r: Option<u32>)
        ensures
            r == self.limit.applied(),
            r matches Some(l) ==> l >= 1,
    {
        self.limit.limit()
    }

    /// Switches the limit off if it was on and on if it was off; returns
    /// whether it was on.
    pub fn toggle_limit(&mut self) -> (r: bool)
        ensures
            r == old(self).limit.is_enabled(),
            final(self).limit.is_enabled() == !old(self).limit.is_enabled(),
            final(self).limit.value() == old(self).limit.value(),
            final(self).unit == old(self).unit,
            final(self).expected_size == old(self).expected_size,
    {
        self.limit.toggle()
    }
}

/// The receiving end of the configuration: readers see the latest snapshot,
/// whole, and may skip snapshots that were replaced before they looked.
pub struct ConfigMonitor(WatchReceiver<Config>);

impl Clone for ConfigMonitor {
    fn clone(&self) -> Self {
        ConfigMonitor(self.0.clone())
    }
}

impl ConfigMonitor {
    /// A monitor of `config`, with the sender that replaces it.
    pub fn new(config: Config) -> (WatchSender<Config>, Self) {
        let (tx, rx) = channel(config);
        (tx, ConfigMonitor(rx))
    }

    /// The latest snapshot, or `None` where this monitor has already seen it.
    pub fn config_if_new(&mut self) -> Option<Config> {
        latest_if_new(&mut self.0)
    }

    /// The limit of a snapshot not seen before, where it has one.
    pub fn limit_if_new(&mut self) -> (r: Option<u32>)
        ensures
            r matches Some(l) ==> l >= 1,
    {
        match self.config_if_new() {
            Some(config) => config.limit(),
            None => None,
        }
    }

    /// The limit of the latest snapshot.
    pub fn limit(&mut self) -> (r: Option<u32>)
        ensures
            r matches Some(l) ==> l >= 1,
    {
        latest(&mut self.0).limit()
    }

    /// The unit of the latest snapshot.
    pub fn unit(&mut self) -> Unit {
        latest(&mut self.0).unit
    }
}

/// A broadcast flag, such as pause or cancel, owned by one side and read by
/// others. It is a level, not an event: a reader sees whether it is on when it
/// looks, and misses an on and off between two looks.
pub struct Latch {
    active: bool,
    tx: WatchSender<bool>,
}

impl Latch {
    /// Whether the latch is on, as its owner last set it.
    pub closed spec fn is_active(&self) -> bool {
        self.active
    }

    /// A latch that is off.
    pub fn new() -> (r: Self)
        ensures
            !r.is_active(),
    {
        let active = false;
        let (tx, _rx) = channel(active);
        Latch { active, tx }
    }

    /// Whether the latch is on.
    pub fn active(&self) -> (r: bool)
        ensures
            r == self.is_active(),
    {
        self.active
    }

    /// Turns the latch off if it was on, and on if it was off.
    pub fn toggle(&mut self)
        ensures
            final(self).is_active() == !old(self).is_active(),
    {
        self.active = !self.active;
        self.tx();
    }

    /// Turns the latch on.
    pub fn on(&mut self)
        ensures
            final(self).is_active(),
    {
        self.active = true;
        self.tx();
    }

    /// Turns the latch off.
    pub fn off(&mut self)
        ensures
            !final(self).is_active(),
    {
        self.active = false;
        self.tx();
    }

    fn tx(&mut self)
        ensures
            final(self).is_active() == old(self).is_active(),
    {
        send(&self.tx, self.active);
    }

    /// A reader of the latch.
    pub fn watch(&mut self) -> (r: LatchMonitor)
        ensures
            final(self).is_active() == old(self).is_active(),
    {
        LatchMonitor(subscribe(&self.tx))
    }
}

impl Clone for Latch {
    fn clone(&self) -> (r: Self)
        ensures
            r.is_active() == self.is_active(),
    {
        Latch { active: self.active, tx: self.tx.clone() }
    }
}

/// A reader of a latch.
pub struct LatchMonitor(WatchReceiver<bool>);

impl Clone for LatchMonitor {
    fn clone(&self) -> Self {
        LatchMonitor(self.0.clone())
    }
}

impl LatchMonitor {
    /// Whether the latch is on now.
    pub fn active(&mut self) -> bool {
        latest(&mut self.0)
    }
}

} // verus!
