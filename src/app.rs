use vstd::prelude::*;

use crate::config::{Config, SpeedLimit};

verus! {

/// What drives a pipe valve forward.
#[derive(Debug, Clone, Copy, PartialEq, Eq, Structural)]
pub enum Event {
    Tick,
    Key,
}

/// Bytes and records moved so far.
#[derive(Clone, Copy, Debug, PartialEq, Eq, Structural)]
pub struct Progress {
    pub bytes_transferred: usize,
    pub records_transferred: usize,
}

impl Progress {
    /// Nothing moved yet.
    pub open spec fn spec_zero() -> Self {
        Progress { bytes_transferred: 0, records_transferred: 0 }
    }
}

impl Default for Progress {
    fn default() -> (r: Self)
        ensures
            r == Progress::spec_zero(),
    {
        Progress { bytes_transferred: 0, records_transferred: 0 }
    }
}

/// Something that has a configuration.
pub trait Configured {
    /// A copy of the configuration.
    fn config(&self) -> Config;
}

/// Something that can be reconfigured as it is.
pub trait Configurable {
    /// Replaces the configuration with `config`.
    fn configure(&mut self, config: Config);
}

/// The life of a transfer: new, running or paused, and finally aborted or
/// done.
#[derive(Debug)]
pub enum PipeValve {
    /// A valve that has not started yet.
    New(PipeValveNew),
    /// A valve moving data as fast as it may until it finishes, is paused,
    /// is cancelled, or fails.
    Running(PipeValveRunning),
    /// A valve paused by the user, which can be resumed.
    Paused(PipeValvePaused),
    /// A valve stopped by an error or a cancellation.
    Aborted(PipeValveAborted),
    /// A valve that completed its transfer.
    Done,
}

impl Default for PipeValve {
    fn default() -> (r: Self)
        ensures
            r matches PipeValve::New(n) && n.config_of() == Config::spec_default(),
    {
        PipeValve::New(PipeValveNew::default())
    }
}

impl PipeValve {
    /// Whether the valve is running or paused.
    pub fn active(&self) -> (r: bool)
        ensures
            r == (self is Running || self is Paused),
    {
        match *self {
            PipeValve::Running(_) | PipeValve::Paused(_) => true,
            _ => false,
        }
    }

    /// Starts a new valve from zero, or resumes a paused one with its
    /// progress; any other valve cannot start.
    pub fn start(self) -> (r: Result<Self, ()>)
        ensures
            self matches PipeValve::New(n) ==> r matches Ok(PipeValve::Running(g)) && g.config_of()
                == n.config_of() && g.progress_of() == Progress::spec_zero(),
            self matches PipeValve::Paused(p) ==> r matches Ok(PipeValve::Running(g))
                && g.config_of() == p.config_of() && g.progress_of() == p.progress_of(),
            !(self is New || self is Paused) ==> r is Err,
    {
        match self {
            PipeValve::New(new) => Ok(PipeValve::Running(new.begin())),
            PipeValve::Paused(paused) => Ok(PipeValve::Running(paused.resume())),
            _ => Err(()),
        }
    }

    /// Takes an event; the valve stays as it is.
    pub fn process(self, event: Event) -> (r: Result<Self, ()>)
        ensures
            r == Ok::<Self, ()>(self),
    {
        Ok(self)
    }
}

/// A valve that has not started yet.
#[derive(Debug)]
pub struct PipeValveNew {
    config: Config,
}

/// A valve moving data.
#[derive(Debug)]
pub struct PipeValveRunning {
    config: Config,
    progress: Progress,
}

/// A valve paused by the user.
#[derive(Debug)]
pub struct PipeValvePaused {
    config: Config,
    progress: Progress,
}

/// A valve stopped by an error or a cancellation, with the progress made
/// where it had started.
#[derive(Debug)]
pub struct PipeValveAborted {
    progress: Option<Progress>,
}

impl Default for PipeValveNew {
    fn default() -> (r: Self)
        ensures
            r.config_of() == Config::spec_default(),
    {
        PipeValveNew { config: Config::default() }
    }
}

impl Default for PipeValveAborted {
    fn default() -> (r: Self)
        ensures
            r.progress_of() is None,
    {
        PipeValveAborted { progress: None }
    }
}

impl PipeValveNew {
    /// The configuration.
    pub closed spec fn config_of(&self) -> Config {
        self.config
    }

    /// Starts the transfer, with no progress yet.
    pub fn begin(self) -> (r: PipeValveRunning)
        ensures
            r.config_of() == self.config_of(),
            r.progress_of() == Progress::spec_zero(),
    {
        PipeValveRunning { config: self.config, progress: Progress::default() }
    }

    /// Replaces the rate limit: `None` or zero switches it off.
    pub fn set_limit(self, limit: Option<u32>) -> (r: PipeValveNew)
        ensures
            r.config_of().limit.applied() == (match limit {
                Some(l) => if l >= 1 {
                    Some(l)
                } else {
                    None
                },
                None => None,
            }),
            r.config_of().unit == self.config_of().unit,
            r.config_of().expected_size == self.config_of().expected_size,
    {
        PipeValveNew { config: Config { limit: SpeedLimit::from_limit(limit), ..self.config } }
    }

    /// Gives up before starting: no progress was made.
    pub fn abort(self) -> (r: PipeValveAborted)
        ensures
            r.progress_of() is None,
    {
        PipeValveAborted::default()
    }
}

impl PipeValveRunning {
    /// The configuration.
    pub closed spec fn config_of(&self) -> Config {
        self.config
    }

    /// The progress so far.
    pub closed spec fn progress_of(&self) -> Progress {
        self.progress
    }

    /// Pauses the transfer, keeping its progress.
    pub fn pause(self) -> (r: PipeValvePaused)
        ensures
            r.config_of() == self.config_of(),
            r.progress_of() == self.progress_of(),
    {
        PipeValvePaused { config: self.config, progress: self.progress }
    }

    /// Stops the transfer, keeping its progress.
    pub fn abort(self) -> (r: PipeValveAborted)
        ensures
            r.progress_of() == Some(self.progress_of()),
    {
        PipeValveAborted { progress: Some(self.progress) }
    }
}

impl PipeValvePaused {
    /// The configuration.
    pub closed spec fn config_of(&self) -> Config {
        self.config
    }

    /// The progress so far.
    pub closed spec fn progress_of(&self) -> Progress {
        self.progress
    }

    /// Resumes the transfer, keeping its progress: only a new transfer
    /// starts again from zero.
    pub fn resume(self) -> (r: PipeValveRunning)
        ensures
            r.config_of() == self.config_of(),
            r.progress_of() == self.progress_of(),
    {
        PipeValveRunning { config: self.config, progress: self.progress }
    }

    /// Stops the transfer, keeping its progress.
    pub fn abort(self) -> (r: PipeValveAborted)
        ensures
            r.progress_of() == Some(self.progress_of()),
    {
        PipeValveAborted { progress: Some(self.progress) }
    }
}

impl PipeValveAborted {
    /// The progress made before the valve stopped, where it had started.
    pub closed spec fn progress_of(&self) -> Option<Progress> {
        self.progress
    }

    /// The progress made before the valve stopped, where it had started.
    pub fn progress(&self) -> (r: Option<Progress>)
        ensures
            r == self.progress_of(),
    {
        self.progress
    }
}

impl Configured for PipeValveNew {
    fn config(&self) -> Config {
        self.config
    }
}

impl Configured for PipeValvePaused {
    fn config(&self) -> Config {
        self.config
    }
}

impl Configured for PipeValveRunning {
    fn config(&self) -> Config {
        self.config
    }
}

} // verus!
