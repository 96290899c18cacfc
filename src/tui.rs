use vstd::prelude::*;

use watch::WatchSender;

use crate::broadcast::send;
use crate::config::{Config, Latch, SpeedLimit};
use crate::unit::next_unit;
use crate::widgets::{entered_rate, response_rate, EditRateState};

verus! {

/// The step by which the arrow keys change the limit, in units per second.
pub const RATE_STEP: u32 = 10;

/// `n` rounded down to a multiple of `step`, and at least one.
pub open spec fn round_to_step(n: int, step: int) -> int {
    let m = n - n % step;
    if m < 1 {
        1
    } else {
        m
    }
}

/// The limit `value` raised by `increment` and rounded down to a multiple of
/// it, or `None` where there is no limit or the sum overflows.
pub open spec fn raised(value: Option<u32>, increment: u32) -> Option<u32> {
    match value {
        Some(v) => if v + increment > u32::MAX {
            None
        } else {
            Some(round_to_step(v + increment, increment as int) as u32)
        },
        None => None,
    }
}

/// The limit `value` lowered by `increment` and rounded down to a multiple of
/// it but at least one, or `None` where there is no limit or it is below
/// `increment`.
pub open spec fn lowered(value: Option<u32>, increment: u32) -> Option<u32> {
    match value {
        Some(v) => if v < increment {
            None
        } else {
            Some(round_to_step(v - increment, increment as int) as u32)
        },
        None => None,
    }
}

/// Raises the limit `value` by `increment`, rounded down to a multiple of
/// `increment`.
pub fn checked_add(value: Option<u32>, increment: u32) -> (r: Option<u32>)
    requires
        increment >= 1,
    ensures
        r == raised(value, increment),
        r matches Some(l) ==> l >= 1,
{
    match value {
        Some(v) => match v.checked_add(increment) {
            Some(n) => {
                assert(n % increment <= n) by (nonlinear_arith)
                    requires
                        increment >= 1,
                ;
                let m = n - n % increment;
                if m < 1 {
                    Some(1)
                } else {
                    Some(m)
                }
            },
            None => None,
        },
        None => None,
    }
}

/// Lowers the limit `value` by `increment`, rounded down to a multiple of
/// `increment` but at least one.
pub fn checked_sub(value: Option<u32>, increment: u32) -> (r: Option<u32>)
    requires
        increment >= 1,
    ensures
        r == lowered(value, increment),
        r matches Some(l) ==> l >= 1,
{
    match value {
        Some(v) => match v.checked_sub(increment) {
            Some(n) => {
                assert(n % increment <= n) by (nonlinear_arith)
                    requires
                        increment >= 1,
                ;
                let m = n - n % increment;
                if m < 1 {
                    Some(1)
                } else {
                    Some(m)
                }
            },
            None => None,
        },
        None => None,
    }
}

/// A key pressed on the terminal.
#[derive(Debug, Clone, Copy, PartialEq, Eq, Structural)]
pub enum Key {
    Char(char),
    CtrlC,
    Tab,
    Left,
    Right,
    Esc,
    Backspace,
    Enter,
    Other,
}

/// What the interface shows: the progress, or the editor of the limit.
#[derive(Debug, Clone, Copy, PartialEq, Eq, Structural, PartialOrd, Ord)]
pub enum TuiMode {
    Progress,
    Edit,
}

/// The controls of a transfer: its configuration, which every change
/// publishes whole, and its pause and cancel latches.
pub struct Controls {
    config: Config,
    config_tx: WatchSender<Config>,
    paused: Latch,
    aborted: Latch,
}

impl Controls {
    /// The configuration last published.
    pub closed spec fn spec_config(&self) -> Config {
        self.config
    }

    /// Whether the pause latch is on.
    pub closed spec fn is_paused(&self) -> bool {
        self.paused.is_active()
    }

    /// Whether the cancel latch is on.
    pub closed spec fn is_aborted(&self) -> bool {
        self.aborted.is_active()
    }

    /// Controls publishing to `config_tx`, starting from `config`.
    pub fn new(paused: Latch, aborted: Latch, config: Config, config_tx: WatchSender<Config>) -> (r:
        Self)
        ensures
            r.spec_config() == config,
            r.is_paused() == paused.is_active(),
            r.is_aborted() == aborted.is_active(),
    {
        Controls { config, config_tx, paused, aborted }
    }

    /// The configuration last published.
    pub fn config(&self) -> (r: Config)
        ensures
            r == self.spec_config(),
    {
        self.config
    }

    /// Whether the pause latch is on.
    pub fn paused(&self) -> (r: bool)
        ensures
            r == self.is_paused(),
    {
        self.paused.active()
    }

    /// Pauses a running transfer, or resumes a paused one.
    pub fn toggle_paused(&mut self)
        ensures
            final(self).is_paused() == !old(self).is_paused(),
            final(self).is_aborted() == old(self).is_aborted(),
            final(self).spec_config() == old(self).spec_config(),
    {
        self.paused.toggle();
    }

    /// Cancels the transfer.
    pub fn abort(&mut self)
        ensures
            final(self).is_aborted(),
            final(self).is_paused() == old(self).is_paused(),
            final(self).spec_config() == old(self).spec_config(),
    {
        self.aborted.on();
    }

    /// Switches the limit off or on again, and publishes the configuration.
    pub fn toggle_speed_limit(&mut self)
        ensures
            final(self).spec_config().limit.is_enabled() == !old(self).spec_config().limit.is_enabled(),
            final(self).spec_config().limit.value() == old(self).spec_config().limit.value(),
            final(self).spec_config().unit == old(self).spec_config().unit,
            final(self).spec_config().expected_size == old(self).spec_config().expected_size,
            final(self).is_paused() == old(self).is_paused(),
            final(self).is_aborted() == old(self).is_aborted(),
    {
        self.config.toggle_limit();
        send(&self.config_tx, self.config);
    }

    /// Sets the limit, off for `None`, and publishes the configuration.
    pub fn set_limit(&mut self, limit: Option<u32>)
        requires
            limit matches Some(l) ==> l >= 1,
        ensures
            final(self).spec_config().limit.applied() == limit,
            final(self).spec_config().unit == old(self).spec_config().unit,
            final(self).spec_config().expected_size == old(self).spec_config().expected_size,
            final(self).is_paused() == old(self).is_paused(),
            final(self).is_aborted() == old(self).is_aborted(),
    {
        self.config = Config { limit: SpeedLimit::from_limit(limit), ..self.config };
        send(&self.config_tx, self.config);
    }

    /// Raises the limit by one step; a limit that is off, or would overflow,
    /// switches off.
    pub fn increase_rate(&mut self)
        ensures
            final(self).spec_config().limit.applied() == raised(
                old(self).spec_config().limit.applied(),
                RATE_STEP,
            ),
            final(self).spec_config().unit == old(self).spec_config().unit,
    {
        let limit = checked_add(self.config.limit(), RATE_STEP);
        self.set_limit(limit);
    }

    /// Lowers the limit by one step, to no less than one; a limit that is
    /// off, or below one step, switches off.
    pub fn decrease_rate(&mut self)
        ensures
            final(self).spec_config().limit.applied() == lowered(
                old(self).spec_config().limit.applied(),
                RATE_STEP,
            ),
            final(self).spec_config().unit == old(self).spec_config().unit,
    {
        let limit = checked_sub(self.config.limit(), RATE_STEP);
        self.set_limit(limit);
    }

    /// Moves to the next unit, and publishes the configuration.
    pub fn cycle_unit(&mut self)
        ensures
            final(self).spec_config().unit == next_unit(old(self).spec_config().unit),
            final(self).spec_config().limit == old(self).spec_config().limit,
            final(self).is_paused() == old(self).is_paused(),
            final(self).is_aborted() == old(self).is_aborted(),
    {
        self.config.unit.cycle();
        send(&self.config_tx, self.config);
    }

    /// Acts on a key pressed in `mode`; returns the next mode, and whether the
    /// interface should stop. In the progress view, `e` opens the editor,
    /// tab cycles the unit, a backquote switches the limit, the arrows lower
    /// and raise it, space pauses and resumes, and control-C cancels the
    /// transfer and stops. In the editor, the key goes to `edit`, and its
    /// answer sets the limit and closes the editor.
    pub fn handle_key(&mut self, mode: TuiMode, key: Key, edit: &mut EditRateState) -> (r: (
        TuiMode,
        bool,
    ))
        requires
            old(edit).wf(),
        ensures
            final(edit).wf(),
            r.1 <==> (mode == TuiMode::Progress && key == Key::CtrlC),
            r.1 ==> final(self).is_aborted(),
            mode == TuiMode::Progress && key == Key::Char('e') ==> r.0 == TuiMode::Edit,
            mode == TuiMode::Progress && key == Key::Char(' ') ==> final(self).is_paused()
                == !old(self).is_paused(),
            mode == TuiMode::Progress && key == Key::Tab ==> final(self).spec_config().unit
                == next_unit(old(self).spec_config().unit),
            mode == TuiMode::Progress && key == Key::Right ==> final(self).spec_config().limit.applied()
                == raised(old(self).spec_config().limit.applied(), RATE_STEP),
            mode == TuiMode::Progress && key == Key::Left ==> final(self).spec_config().limit.applied()
                == lowered(old(self).spec_config().limit.applied(), RATE_STEP),
            mode == TuiMode::Edit && key == Key::Esc ==> {
                &&& r.0 == TuiMode::Progress
                &&& final(self).spec_config().limit.applied() is None
            },
            mode == TuiMode::Edit && key == Key::Enter ==> match entered_rate(old(edit).typed()) {
                Some(answer) => r.0 == TuiMode::Progress && final(self).spec_config().limit.applied()
                    == response_rate(answer),
                None => {
                    &&& r.0 == TuiMode::Edit
                    &&& final(self).spec_config() == old(self).spec_config()
                },
            },
    {
        match mode {
            TuiMode::Progress => {
                match key {
                    Key::Char('e') => {
                        return (TuiMode::Edit, false);
                    },
                    Key::Tab => self.cycle_unit(),
                    Key::Char('`') => self.toggle_speed_limit(),
                    Key::Left => self.decrease_rate(),
                    Key::Right => self.increase_rate(),
                    Key::Char(' ') => self.toggle_paused(),
                    Key::CtrlC => {
                        self.abort();
                        return (TuiMode::Progress, true);
                    },
                    _ => {},
                }
                (TuiMode::Progress, false)
            },
            TuiMode::Edit => {
                match edit.input(key) {
                    Some(response) => {
                        let limit = response.rate();
                        self.set_limit(limit);
                        (TuiMode::Progress, false)
                    },
                    None => (TuiMode::Edit, false),
                }
            },
        }
    }
}

} // verus!
