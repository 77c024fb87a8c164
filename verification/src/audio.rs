//! The audio task's state machine.
//!
//! The task drains the audio command channel at a bounded poll interval.
//! A beep request starts a tone only when no beep sequence is running; a
//! request arriving during a running sequence is dropped, never queued, so
//! at most one beep is ever active. A media request preempts any playing
//! media immediately. The speaker backend performs the actions; this module
//! only decides them.

use vstd::prelude::*;

verus! {

/// A command on the audio channel.
#[derive(Debug)]
pub enum AudioCmd {
    /// Sound the beep tone for `repeat` spans of `unit_ms` milliseconds.
    Beep(u32, u64),
    /// Stream the file at this path, preempting any playing media.
    Music(String),
}

/// The audio task's private state: the moment (task-clock milliseconds) at
/// which the running beep sequence ends, if one runs.
#[derive(Debug, Clone, Copy, PartialEq, Eq, Structural)]
pub struct AudioState {
    pub beep_until: Option<u64>,
}

/// What the speaker backend is told to do for one command.
#[derive(Debug, Clone)]
pub enum AudioAction {
    /// Nothing; a beep was asked for while one is running.
    Ignore,
    /// Start the beep tone; it is to be stopped when the state says so.
    StartBeep,
    /// Stop the running beep tone.
    StopBeep,
    /// Stop any playing media and stream this file.
    PlayMusic(String),
}

/// The length of a whole beep sequence of `repeat` spans of `unit_ms`
/// milliseconds, capped at the clock's range.
pub open spec fn spec_beep_total_ms(repeat: u32, unit_ms: u64) -> int {
    if repeat * unit_ms > u64::MAX {
        u64::MAX as int
    } else {
        repeat * unit_ms
    }
}

/// Whether a beep sequence is running at `now`.
pub open spec fn spec_beep_running(state: AudioState, now: u64) -> bool {
    match state.beep_until {
        Some(t) => now < t,
        None => false,
    }
}

impl AudioState {
    /// The state the task starts in: no beep running.
    pub fn new() -> (r: AudioState)
        ensures
            r.beep_until is None,
    {
        AudioState { beep_until: None }
    }

    /// Whether a beep sequence is running at `now`.
    pub fn beep_running(&self, now: u64) -> (r: bool)
        ensures
            r == spec_beep_running(*self, now),
    {
        match self.beep_until {
            Some(t) => now < t,
            None => false,
        }
    }

    /// Applies one command at task-clock time `now`. A beep is honored only
    /// when none is running, and then runs for its whole duration; a beep
    /// asked for while one runs is dropped and changes nothing. Media
    /// always plays and never touches the beep clock.
    pub fn handle_cmd(&mut self, cmd: AudioCmd, now: u64) -> (r: AudioAction)
        ensures
            match cmd {
                AudioCmd::Beep(repeat, unit_ms) => {
                    if spec_beep_running(*old(self), now) {
                        &&& r is Ignore
                        &&& *final(self) == *old(self)
                    } else {
                        &&& r is StartBeep
                        &&& final(self).beep_until == Some(
                            (if now + spec_beep_total_ms(repeat, unit_ms) > u64::MAX {
                                u64::MAX
                            } else {
                                (now + spec_beep_total_ms(repeat, unit_ms)) as u64
                            }),
                        )
                    }
                },
                AudioCmd::Music(path) => {
                    &&& r matches AudioAction::PlayMusic(p) && p == path
                    &&& *final(self) == *old(self)
                },
            },
    {
        match cmd {
            AudioCmd::Beep(repeat, unit_ms) => {
                if self.beep_running(now) {
                    AudioAction::Ignore
                } else {
                    let total = match (repeat as u64).checked_mul(unit_ms) {
                        Some(t) => t,
                        None => u64::MAX,
                    };
                    let until = match now.checked_add(total) {
                        Some(t) => t,
                        None => u64::MAX,
                    };
                    self.beep_until = Some(until);
                    AudioAction::StartBeep
                }
            },
            AudioCmd::Music(path) => AudioAction::PlayMusic(path),
        }
    }

    /// One poll tick at task-clock time `now`: once the running beep
    /// sequence's whole duration has elapsed, the tone is stopped and the
    /// running flag cleared; otherwise nothing changes.
    pub fn tick(&mut self, now: u64) -> (r: AudioAction)
        ensures
            old(self).beep_until matches Some(t) && now >= t ==> {
                &&& r is StopBeep
                &&& final(self).beep_until is None
            },
            (match old(self).beep_until {
                Some(t) => now < t,
                None => true,
            }) ==> {
                &&& r is Ignore
                &&& *final(self) == *old(self)
            },
    {
        match self.beep_until {
            Some(t) => {
                if now >= t {
                    self.beep_until = None;
                    AudioAction::StopBeep
                } else {
                    AudioAction::Ignore
                }
            },
            None => AudioAction::Ignore,
        }
    }
}

/// Once a beep sequence's whole duration has elapsed, the running flag is
/// false again, so a subsequent beep is honored; that no second tone starts
/// while one runs is the contract of `handle_cmd` itself.
pub proof fn lemma_beep_expires(start: u64, repeat: u32, unit_ms: u64, later: u64)
    requires
        start + spec_beep_total_ms(repeat, unit_ms) <= later <= u64::MAX,
    ensures
        !spec_beep_running(
            AudioState {
                beep_until: Some(
                    (if start + spec_beep_total_ms(repeat, unit_ms) > u64::MAX {
                        u64::MAX
                    } else {
                        (start + spec_beep_total_ms(repeat, unit_ms)) as u64
                    }),
                ),
            },
            later,
        ),
{
}

/// A square-wave test signal: 2048 stereo samples of a ±20000 square wave
/// that flips every 1024 samples, as 16-bit little-endian frames (the same
/// two bytes for the left and the right channel of each sample).
pub open spec fn spec_test_signal_byte(i: int) -> u8 {
    let sample = i / 4;
    let lo = i % 2 == 0;
    if (sample / 1024) % 2 == 0 {
        if lo {
            0x20
        } else {
            0x4E
        }
    } else {
        if lo {
            0xE0
        } else {
            0xB1
        }
    }
}

/// Builds the square-wave test buffer: 2048 samples, two channels, two
/// bytes each.
pub fn play_test_signal() -> (r: Vec<u8>)
    ensures
        r@.len() == 8192,
        forall|i: int| 0 <= i < 8192 ==> r@[i] == spec_test_signal_byte(i),
{
    let mut buffer: Vec<u8> = Vec::new();
    let mut i: usize = 0;
    while i < 2048
        invariant
            i <= 2048,
            buffer@.len() == 4 * i,
            forall|j: int| 0 <= j < 4 * i ==> buffer@[j] == spec_test_signal_byte(j),
        decreases 2048 - i,
    {
        // ±20000 as 16-bit little endian: 20000 is 0x4E20, -20000 is 0xB1E0.
        let (b0, b1) = if (i / 1024) % 2 == 0 {
            (0x20u8, 0x4Eu8)
        } else {
            (0xE0u8, 0xB1u8)
        };
        buffer.push(b0);
        buffer.push(b1);
        buffer.push(b0);
        buffer.push(b1);
        proof {
            assert forall|j: int| 4 * i <= j < 4 * (i + 1) implies buffer@[j]
                == spec_test_signal_byte(j) by {
                assert(j / 4 == i as int) by (nonlinear_arith)
                    requires
                        4 * i <= j < 4 * (i + 1),
                ;
            }
        }
        i = i + 1;
    }
    buffer
}

} // verus!
