//! Follows changes made outside the app: the microphone and speaker mute
//! switches in Windows, and the screen brightness slider.
//!
//! The monitor polls on a fast tick. Mute state is compared every tick, so the
//! keyboard's mute indicators follow Windows at once; the brightness query is
//! slow, so it runs only once the slow interval has built up, and never while
//! the app is itself writing a brightness (its own write would read back as an
//! outside change).

use vstd::prelude::*;

verus! {

/// The poll loop's state: how often it runs and what it last saw.
#[derive(Clone, Copy, Debug, PartialEq, Eq, Structural)]
pub struct ExternalChangeMonitor {
    /// The tick, in milliseconds.
    pub fast_interval_ms: u64,
    /// How often brightness is queried, in milliseconds.
    pub slow_interval_ms: u64,
    pub mic_muted: bool,
    pub speakers_muted: bool,
    pub screen_brightness: u8,
}

/// Whether the monitor's thread should keep polling.
#[derive(Clone, Copy, Debug, Default, PartialEq, Eq, Structural)]
pub struct MonitorRunning {
    pub running: bool,
}

/// What one tick asks of the hardware.
#[derive(Clone, Copy, Debug, PartialEq, Eq, Structural)]
pub struct PollStep {
    /// The microphone indicator's new state, when the mute switch moved.
    pub mic_indicator: Option<bool>,
    /// The speaker indicator's new state, when the mute switch moved.
    pub speakers_indicator: Option<bool>,
    /// The time built up towards the next brightness query.
    pub interval_ms: u64,
    /// Whether brightness is to be queried now (and handed to
    /// [`ExternalChangeMonitor::brightness_observed`]).
    pub query_brightness: bool,
}

/// The indicator update owed when a switch reads `now` after `before`.
pub open spec fn indicator_update(before: bool, now: bool) -> Option<bool> {
    if now != before { Some(now) } else { None }
}

/// Whether the slow interval has built up and no brightness write of the
/// app's own is under way.
pub open spec fn brightness_due(elapsed_ms: int, slow_interval_ms: int, screen_adjusting: int) -> bool {
    elapsed_ms >= slow_interval_ms && screen_adjusting == 0
}

impl ExternalChangeMonitor {
    /// A monitor that starts from what the hardware reports right now, so the
    /// first tick raises nothing for state that was already there.
    pub fn new(
        fast_interval_ms: u64,
        slow_interval_ms: u64,
        mic_muted: bool,
        speakers_muted: bool,
        screen_brightness: u8,
    ) -> (monitor: Self)
        ensures
            monitor == (ExternalChangeMonitor {
                fast_interval_ms,
                slow_interval_ms,
                mic_muted,
                speakers_muted,
                screen_brightness,
            }),
    {
        ExternalChangeMonitor {
            fast_interval_ms,
            slow_interval_ms,
            mic_muted,
            speakers_muted,
            screen_brightness,
        }
    }

    /// Marks the monitor as running. Returns `false`, changing nothing, when it
    /// already was: a second monitor thread is never started.
    pub fn start(flag: &mut MonitorRunning) -> (started: bool)
        ensures
            started == !old(flag).running,
            final(flag).running,
    {
        if flag.running {
            return false;
        }
        flag.running = true;
        true
    }

    /// Clears the running flag; the poll loop ends at its next check.
    pub fn stop(flag: &mut MonitorRunning)
        ensures
            !final(flag).running,
    {
        flag.running = false;
    }

    /// One tick, given the mute switches as they read now, the time built up
    /// since the last brightness query and how many brightness writes of the
    /// app's own are under way.
    pub fn poll_once(
        &mut self,
        interval_ms: u64,
        mic_muted: bool,
        speakers_muted: bool,
        screen_adjusting: u32,
    ) -> (step: PollStep)
        requires
            interval_ms + old(self).fast_interval_ms <= u64::MAX,
        ensures
            step.mic_indicator == indicator_update(old(self).mic_muted, mic_muted),
            step.speakers_indicator == indicator_update(old(self).speakers_muted, speakers_muted),
            step.query_brightness == brightness_due(
                interval_ms + old(self).fast_interval_ms,
                old(self).slow_interval_ms as int,
                screen_adjusting as int,
            ),
            step.query_brightness ==> step.interval_ms == 0,
            !step.query_brightness ==> step.interval_ms == interval_ms + old(self).fast_interval_ms,
            *final(self) == (ExternalChangeMonitor {
                mic_muted,
                speakers_muted,
                ..*old(self)
            }),
    {
        let mic_indicator = if mic_muted != self.mic_muted { Some(mic_muted) } else { None };
        self.mic_muted = mic_muted;
        let speakers_indicator = if speakers_muted != self.speakers_muted {
            Some(speakers_muted)
        } else {
            None
        };
        self.speakers_muted = speakers_muted;

        let elapsed = interval_ms + self.fast_interval_ms;
        let query_brightness = elapsed >= self.slow_interval_ms && screen_adjusting == 0;
        PollStep {
            mic_indicator,
            speakers_indicator,
            interval_ms: if query_brightness { 0 } else { elapsed },
            query_brightness,
        }
    }

    /// Takes a brightness reading. Returns the new level when it differs from
    /// the last one seen: the caller then makes it the brightness target and
    /// saves the configuration.
    pub fn brightness_observed(&mut self, current: u8) -> (changed: Option<u8>)
        ensures
            changed == (if current != old(self).screen_brightness {
                Some(current)
            } else {
                None::<u8>
            }),
            *final(self) == (ExternalChangeMonitor { screen_brightness: current, ..*old(self) }),
    {
        if self.screen_brightness != current {
            self.screen_brightness = current;
            Some(current)
        } else {
            None
        }
    }
}

/// An indicator is updated exactly when its switch moved, and then to the
/// switch's new state: a monitor started from the hardware's own reading, or
/// polled twice with the same reading, raises nothing.
pub proof fn an_indicator_moves_only_with_its_switch(before: bool, now: bool)
    ensures
        indicator_update(before, now) is Some <==> before != now,
        indicator_update(before, now) matches Some(state) ==> state == now,
        indicator_update(now, now) is None,
{
}

} // verus!
