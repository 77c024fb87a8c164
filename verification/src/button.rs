//! The multi-click button classifier.
//!
//! Raw pins are sampled every 10 ms; each key runs a small state machine
//! with a short-press timer and a long-gap timer. A press shorter than the
//! debounce threshold counts for nothing; otherwise each press adds a
//! click, and once the key stays released for the whole gap window the
//! gesture is classified as a single, double or triple click and exactly
//! one message is emitted. Keys are polled in index order, and one key's
//! detection never blocks another's.

use vstd::prelude::*;

verus! {

/// The poll cadence of the raw pins, in milliseconds.
pub const POLL_INTERVAL_MS: u64 = 10;

/// Poll ticks a press must be held to count as a click.
pub const DEBOUNCE_TICKS: u32 = 3;

/// Poll ticks of continuous release that end a gesture.
pub const RELEASE_GAP_TICKS: u32 = 20;

/// Clicks beyond this many leave the gesture unclassified.
pub const MAX_CLICKS: u32 = 4;

/// Classification of one completed button gesture.
#[derive(Debug, Clone, Copy, PartialEq, Eq, Structural)]
pub enum KeyClickedType {
    NoClick,
    SingleClicked,
    DoubleClicked,
    TripleClicked,
}

/// The message sent once per completed gesture.
#[derive(Debug, Clone, Copy, PartialEq, Eq, Structural)]
pub struct PressedKeyInfo {
    /// Which key, by its position in the polling order.
    pub idx: usize,
    /// What gesture completed.
    pub click_type: KeyClickedType,
}

/// The per-key detector state.
#[derive(Debug, Clone, Copy, PartialEq, Eq, Structural)]
pub enum DetectorState {
    /// No gesture in progress.
    Idle,
    /// The key is down: `held` ticks so far in this press (counted up to
    /// the debounce threshold), `clicks` presses completed earlier in the
    /// gesture.
    Pressed { held: u32, clicks: u32 },
    /// The key is up mid-gesture: `gap` release ticks so far, `clicks`
    /// presses completed.
    Released { gap: u32, clicks: u32 },
}

/// The counters stay inside their windows.
pub open spec fn spec_state_wf(s: DetectorState) -> bool {
    match s {
        DetectorState::Idle => true,
        DetectorState::Pressed { held, clicks } => 1 <= held <= DEBOUNCE_TICKS && clicks
            <= MAX_CLICKS,
        DetectorState::Released { gap, clicks } => 1 <= gap < RELEASE_GAP_TICKS && 1 <= clicks
            <= MAX_CLICKS,
    }
}

/// The gesture a completed click count stands for; counts outside one to
/// three classify as nothing and emit no message.
pub open spec fn spec_classify(clicks: int) -> Option<KeyClickedType> {
    if clicks == 1 {
        Some(KeyClickedType::SingleClicked)
    } else if clicks == 2 {
        Some(KeyClickedType::DoubleClicked)
    } else if clicks == 3 {
        Some(KeyClickedType::TripleClicked)
    } else {
        None
    }
}

/// One poll tick of the detector: the next state and the message, if the
/// tick completed a gesture.
pub open spec fn spec_step(s: DetectorState, pressed: bool) -> (DetectorState, Option<
    KeyClickedType,
>) {
    match s {
        DetectorState::Idle => {
            if pressed {
                (DetectorState::Pressed { held: 1, clicks: 0 }, None)
            } else {
                (DetectorState::Idle, None)
            }
        },
        DetectorState::Pressed { held, clicks } => {
            if pressed {
                let h = if held < DEBOUNCE_TICKS {
                    (held + 1) as u32
                } else {
                    held
                };
                (DetectorState::Pressed { held: h, clicks }, None)
            } else {
                if held >= DEBOUNCE_TICKS {
                    let c = if clicks < MAX_CLICKS {
                        (clicks + 1) as u32
                    } else {
                        clicks
                    };
                    (DetectorState::Released { gap: 1, clicks: c }, None)
                } else if clicks > 0 {
                    (DetectorState::Released { gap: 1, clicks }, None)
                } else {
                    (DetectorState::Idle, None)
                }
            }
        },
        DetectorState::Released { gap, clicks } => {
            if pressed {
                (DetectorState::Pressed { held: 1, clicks }, None)
            } else {
                if gap + 1 >= RELEASE_GAP_TICKS {
                    (DetectorState::Idle, spec_classify(clicks as int))
                } else {
                    (DetectorState::Released { gap: (gap + 1) as u32, clicks }, None)
                }
            }
        },
    }
}

/// The per-key click detector.
#[derive(Debug, Clone, Copy, PartialEq, Eq, Structural)]
pub struct ClickDetector {
    pub state: DetectorState,
}

impl ClickDetector {
    /// A detector with no gesture in progress.
    pub fn new() -> (r: ClickDetector)
        ensures
            r.state == DetectorState::Idle,
    {
        ClickDetector { state: DetectorState::Idle }
    }

    /// Feeds one debounced pin sample (`true` = key down); returns the
    /// classification when this tick completes a gesture.
    pub fn step(&mut self, pressed: bool) -> (r: Option<KeyClickedType>)
        requires
            spec_state_wf(old(self).state),
        ensures
            (final(self).state, r) == spec_step(old(self).state, pressed),
            spec_state_wf(final(self).state),
    {
        match self.state {
            DetectorState::Idle => {
                if pressed {
                    self.state = DetectorState::Pressed { held: 1, clicks: 0 };
                }
                None
            },
            DetectorState::Pressed { held, clicks } => {
                if pressed {
                    if held < DEBOUNCE_TICKS {
                        self.state = DetectorState::Pressed { held: held + 1, clicks };
                    }
                    None
                } else {
                    if held >= DEBOUNCE_TICKS {
                        let c = if clicks < MAX_CLICKS {
                            clicks + 1
                        } else {
                            clicks
                        };
                        self.state = DetectorState::Released { gap: 1, clicks: c };
                    } else if clicks > 0 {
                        self.state = DetectorState::Released { gap: 1, clicks };
                    } else {
                        self.state = DetectorState::Idle;
                    }
                    None
                }
            },
            DetectorState::Released { gap, clicks } => {
                if pressed {
                    self.state = DetectorState::Pressed { held: 1, clicks };
                    None
                } else {
                    if gap + 1 >= RELEASE_GAP_TICKS {
                        self.state = DetectorState::Idle;
                        classify(clicks)
                    } else {
                        self.state = DetectorState::Released { gap: gap + 1, clicks };
                        None
                    }
                }
            },
        }
    }
}

/// The gesture a completed click count stands for.
fn classify(clicks: u32) -> (r: Option<KeyClickedType>)
    ensures
        r == spec_classify(clicks as int),
{
    if clicks == 1 {
        Some(KeyClickedType::SingleClicked)
    } else if clicks == 2 {
        Some(KeyClickedType::DoubleClicked)
    } else if clicks == 3 {
        Some(KeyClickedType::TripleClicked)
    } else {
        None
    }
}

/// Polls every key once, in index order: key `i` is fed sample `i`, and
/// each completed gesture becomes one message carrying its key's index.
/// One key's detection never blocks another's.
pub fn scan_tick(detectors: &mut Vec<ClickDetector>, samples: &Vec<bool>) -> (r: Vec<
    PressedKeyInfo,
>)
    requires
        old(detectors)@.len() == samples@.len(),
        forall|i: int| 0 <= i < old(detectors)@.len() ==> spec_state_wf(
            #[trigger] old(detectors)@[i].state,
        ),
    ensures
        final(detectors)@.len() == samples@.len(),
        forall|i: int| 0 <= i < samples@.len() ==> (#[trigger] final(detectors)@[i].state)
            == spec_step(old(detectors)@[i].state, samples@[i]).0,
        forall|i: int| 0 <= i < samples@.len() ==> spec_state_wf(#[trigger] final(detectors)@[i].state),
        forall|m: int| 0 <= m < r@.len() ==> (#[trigger] r@[m]).idx < samples@.len(),
        forall|i: int|
            0 <= i < samples@.len() && (#[trigger] spec_step(
                old(detectors)@[i].state,
                samples@[i],
            )).1 is Some ==> (exists|m: int|
                0 <= m < r@.len() && #[trigger] r@[m] == (PressedKeyInfo {
                    idx: i as usize,
                    click_type: spec_step(old(detectors)@[i].state, samples@[i]).1->Some_0,
                })),
        forall|i: int|
            0 <= i < samples@.len() && (#[trigger] spec_step(
                old(detectors)@[i].state,
                samples@[i],
            )).1 is None ==> (forall|m: int| 0 <= m < r@.len() ==> (#[trigger] r@[m]).idx != i),
{
    let ghost old_states = detectors@;
    let mut out: Vec<PressedKeyInfo> = Vec::new();
    let mut i: usize = 0;
    while i < samples.len()
        invariant
            detectors@.len() == samples@.len(),
            old_states.len() == samples@.len(),
            i <= samples@.len(),
            forall|j: int| i <= j < samples@.len() ==> #[trigger] detectors@[j] == old_states[j],
            forall|j: int| 0 <= j < samples@.len() ==> spec_state_wf(#[trigger] old_states[j].state),
            forall|j: int| 0 <= j < i ==> (#[trigger] detectors@[j].state) == spec_step(
                old_states[j].state,
                samples@[j],
            ).0,
            forall|j: int| 0 <= j < samples@.len() ==> spec_state_wf(#[trigger] detectors@[j].state),
            forall|m: int| 0 <= m < out@.len() ==> (#[trigger] out@[m]).idx < i,
            forall|j: int|
                0 <= j < i && (#[trigger] spec_step(old_states[j].state, samples@[j])).1 is Some
                    ==> (exists|m: int|
                    0 <= m < out@.len() && #[trigger] out@[m] == (PressedKeyInfo {
                        idx: j as usize,
                        click_type: spec_step(old_states[j].state, samples@[j]).1->Some_0,
                    })),
            forall|j: int|
                0 <= j < i && (#[trigger] spec_step(old_states[j].state, samples@[j])).1 is None
                    ==> (forall|m: int| 0 <= m < out@.len() ==> (#[trigger] out@[m]).idx != j),
        decreases samples@.len() - i,
    {
        let pressed = samples[i];
        let ghost prev_out = out@;
        let det = &mut detectors[i];
        let emitted = det.step(pressed);
        if let Some(kind) = emitted {
            out.push(PressedKeyInfo { idx: i, click_type: kind });
        }
        proof {
            assert forall|j: int|
                0 <= j < i + 1 && (#[trigger] spec_step(old_states[j].state, samples@[j])).1
                    is Some implies (exists|m: int|
                0 <= m < out@.len() && #[trigger] out@[m] == (PressedKeyInfo {
                    idx: j as usize,
                    click_type: spec_step(old_states[j].state, samples@[j]).1->Some_0,
                })) by {
                let target = PressedKeyInfo {
                    idx: j as usize,
                    click_type: spec_step(old_states[j].state, samples@[j]).1->Some_0,
                };
                if j < i {
                    let m = choose|m: int| 0 <= m < prev_out.len() && prev_out[m] == target;
                    assert(out@[m] == target);
                } else {
                    assert(out@[out@.len() - 1] == target);
                }
            }
            assert forall|j: int|
                0 <= j < i + 1 && (#[trigger] spec_step(old_states[j].state, samples@[j])).1
                    is None implies (forall|m: int|
                0 <= m < out@.len() ==> (#[trigger] out@[m]).idx != j) by {
                assert forall|m: int| 0 <= m < out@.len() implies (#[trigger] out@[m]).idx != j by {
                    if m < prev_out.len() {
                        assert(out@[m] == prev_out[m]);
                    } else {
                        assert(out@[m].idx == i);
                    }
                }
            }
        }
        i = i + 1;
    }
    out
}

/// A key held for `n` ticks: true samples.
pub open spec fn press_seq(n: int) -> Seq<bool> {
    Seq::new(n as nat, |i: int| true)
}

/// A key released for `n` ticks: false samples.
pub open spec fn gap_seq(n: int) -> Seq<bool> {
    Seq::new(n as nat, |i: int| false)
}

/// Runs the detector over a sample sequence, collecting every emitted
/// message in order.
pub open spec fn spec_run(s: DetectorState, samples: Seq<bool>) -> (DetectorState, Seq<
    KeyClickedType,
>)
    decreases samples.len(),
{
    if samples.len() == 0 {
        (s, Seq::<KeyClickedType>::empty())
    } else {
        let stepped = spec_step(s, samples[0]);
        let rest = spec_run(stepped.0, samples.subrange(1, samples.len() as int));
        (
            rest.0,
            (match stepped.1 {
                Some(k) => seq![k],
                None => Seq::<KeyClickedType>::empty(),
            }) + rest.1,
        )
    }
}

/// Running over a concatenation runs over the parts in turn.
pub proof fn lemma_run_concat(s: DetectorState, a: Seq<bool>, b: Seq<bool>)
    ensures
        spec_run(s, a + b).0 == spec_run(spec_run(s, a).0, b).0,
        spec_run(s, a + b).1 =~= spec_run(s, a).1 + spec_run(spec_run(s, a).0, b).1,
    decreases a.len(),
{
    if a.len() == 0 {
        assert(a + b =~= b);
        assert(spec_run(s, a).1 + spec_run(spec_run(s, a).0, b).1 =~= spec_run(
            spec_run(s, a).0,
            b,
        ).1);
    } else {
        let stepped = spec_step(s, a[0]);
        let a1 = a.subrange(1, a.len() as int);
        lemma_run_concat(stepped.0, a1, b);
        assert((a + b)[0] == a[0]);
        assert((a + b).subrange(1, (a + b).len() as int) =~= a1 + b);
    }
}

/// Holding a pressed key longer only saturates the held counter and emits
/// nothing.
proof fn lemma_run_hold(held: u32, clicks: u32, n: int)
    requires
        1 <= held <= DEBOUNCE_TICKS,
        clicks <= MAX_CLICKS,
        n >= 0,
    ensures
        spec_run((DetectorState::Pressed { held, clicks }), press_seq(n)).0 == (
        DetectorState::Pressed {
            held: (if held + n > DEBOUNCE_TICKS {
                DEBOUNCE_TICKS
            } else {
                (held + n) as u32
            }),
            clicks,
        }),
        spec_run((DetectorState::Pressed { held, clicks }), press_seq(n)).1 =~= (Seq::<
            KeyClickedType,
        >::empty()),
    decreases n,
{
    if n == 0 {
    } else {
        let s = DetectorState::Pressed { held, clicks };
        assert(press_seq(n)[0] == true);
        let h = if held < DEBOUNCE_TICKS {
            (held + 1) as u32
        } else {
            held
        };
        assert(press_seq(n).subrange(1, n) =~= press_seq(n - 1));
        lemma_run_hold(h, clicks, n - 1);
    }
}

/// A full press from rest or from a gap: the detector ends pressed with
/// the debounce threshold reached and emits nothing.
proof fn lemma_run_press(s: DetectorState, clicks: u32, p: int)
    requires
        p >= DEBOUNCE_TICKS,
        clicks <= MAX_CLICKS,
        s == DetectorState::Idle && clicks == 0 || (exists|gap: u32|
            1 <= gap < RELEASE_GAP_TICKS && s == (DetectorState::Released { gap, clicks })),
    ensures
        spec_run(s, press_seq(p)).0 == (DetectorState::Pressed { held: DEBOUNCE_TICKS, clicks }),
        spec_run(s, press_seq(p)).1 =~= (Seq::<KeyClickedType>::empty()),
{
    assert(press_seq(p)[0] == true);
    assert(spec_step(s, true).0 == DetectorState::Pressed { held: 1, clicks });
    assert(press_seq(p).subrange(1, p) =~= press_seq(p - 1));
    lemma_run_hold(1, clicks, p - 1);
}

/// Releasing after a debounced press counts the click; a gap shorter than
/// the window keeps the gesture open and emits nothing.
proof fn lemma_run_gap(clicks: u32, g: int)
    requires
        clicks < MAX_CLICKS,
        1 <= g < RELEASE_GAP_TICKS,
    ensures
        spec_run((DetectorState::Pressed { held: DEBOUNCE_TICKS, clicks }), gap_seq(g)).0 == (
        DetectorState::Released { gap: g as u32, clicks: (clicks + 1) as u32 }),
        spec_run((DetectorState::Pressed { held: DEBOUNCE_TICKS, clicks }), gap_seq(g)).1 =~= (
        Seq::<KeyClickedType>::empty()),
{
    assert(gap_seq(g)[0] == false);
    assert(gap_seq(g).subrange(1, g) =~= gap_seq(g - 1));
    lemma_run_gap_from_released(1, (clicks + 1) as u32, g - 1);
}

/// Staying released below the gap window only counts the gap up.
proof fn lemma_run_gap_from_released(gap: u32, clicks: u32, n: int)
    requires
        1 <= clicks <= MAX_CLICKS,
        1 <= gap < RELEASE_GAP_TICKS,
        0 <= n,
        gap + n < RELEASE_GAP_TICKS,
    ensures
        spec_run((DetectorState::Released { gap, clicks }), gap_seq(n)).0 == (
        DetectorState::Released { gap: (gap + n) as u32, clicks }),
        spec_run((DetectorState::Released { gap, clicks }), gap_seq(n)).1 =~= (Seq::<
            KeyClickedType,
        >::empty()),
    decreases n,
{
    if n == 0 {
    } else {
        assert(gap_seq(n)[0] == false);
        assert(gap_seq(n).subrange(1, n) =~= gap_seq(n - 1));
        lemma_run_gap_from_released((gap + 1) as u32, clicks, n - 1);
    }
}

/// A whole gap window of release after the last press: the final click is
/// counted, the gesture is classified, exactly one message comes out, and
/// the detector rests.
proof fn lemma_run_tail(clicks: u32)
    requires
        clicks < MAX_CLICKS,
    ensures
        spec_run(
            (DetectorState::Pressed { held: DEBOUNCE_TICKS, clicks }),
            gap_seq(RELEASE_GAP_TICKS as int),
        ).0 == DetectorState::Idle,
        spec_run(
            (DetectorState::Pressed { held: DEBOUNCE_TICKS, clicks }),
            gap_seq(RELEASE_GAP_TICKS as int),
        ).1 =~= (match spec_classify(clicks + 1) {
            Some(k) => seq![k],
            None => Seq::<KeyClickedType>::empty(),
        }),
{
    let w = RELEASE_GAP_TICKS as int;
    assert(gap_seq(w)[0] == false);
    assert(gap_seq(w).subrange(1, w) =~= gap_seq(w - 1));
    lemma_run_tail_from_released(1, (clicks + 1) as u32, w - 1);
}

/// Counting the gap out to the window's edge fires the classification on
/// the last tick.
proof fn lemma_run_tail_from_released(gap: u32, clicks: u32, n: int)
    requires
        1 <= clicks <= MAX_CLICKS,
        1 <= gap < RELEASE_GAP_TICKS,
        gap + n == RELEASE_GAP_TICKS,
    ensures
        spec_run((DetectorState::Released { gap, clicks }), gap_seq(n)).0 == DetectorState::Idle,
        spec_run((DetectorState::Released { gap, clicks }), gap_seq(n)).1 =~= (match spec_classify(
            clicks as int,
        ) {
            Some(k) => seq![k],
            None => Seq::<KeyClickedType>::empty(),
        }),
    decreases n,
{
    assert(gap_seq(n)[0] == false);
    assert(gap_seq(n).subrange(1, n) =~= gap_seq(n - 1));
    if gap + 1 >= RELEASE_GAP_TICKS {
        assert(n == 1);
        let fired = spec_step(DetectorState::Released { gap, clicks }, false);
        assert(fired.0 == DetectorState::Idle);
        assert(spec_run(DetectorState::Idle, gap_seq(0)).1 =~= Seq::<KeyClickedType>::empty());
    } else {
        lemma_run_tail_from_released((gap + 1) as u32, clicks, n - 1);
    }
}

/// A clean single press: held at least the debounce threshold, then
/// released for the whole gap window. Exactly one message is emitted and
/// it is a single click.
pub proof fn lemma_clean_single_press(p: int)
    requires
        p >= DEBOUNCE_TICKS,
    ensures
        ({
            let samples = press_seq(p) + gap_seq(RELEASE_GAP_TICKS as int);
            spec_run(DetectorState::Idle, samples).0 == DetectorState::Idle && spec_run(
                DetectorState::Idle,
                samples,
            ).1 =~= seq![KeyClickedType::SingleClicked]
        }),
{
    lemma_run_press(DetectorState::Idle, 0, p);
    lemma_run_tail(0);
    lemma_run_concat(DetectorState::Idle, press_seq(p), gap_seq(RELEASE_GAP_TICKS as int));
}

/// A clean double press: two debounced presses separated by a gap shorter
/// than the window, then the full window of release. Exactly one message
/// is emitted and it is a double click.
pub proof fn lemma_clean_double_press(p1: int, g1: int, p2: int)
    requires
        p1 >= DEBOUNCE_TICKS,
        p2 >= DEBOUNCE_TICKS,
        1 <= g1 < RELEASE_GAP_TICKS,
    ensures
        ({
            let samples = press_seq(p1) + gap_seq(g1) + press_seq(p2) + gap_seq(
                RELEASE_GAP_TICKS as int,
            );
            spec_run(DetectorState::Idle, samples).0 == DetectorState::Idle && spec_run(
                DetectorState::Idle,
                samples,
            ).1 =~= seq![KeyClickedType::DoubleClicked]
        }),
{
    let w = RELEASE_GAP_TICKS as int;
    let a = press_seq(p1);
    let b = gap_seq(g1);
    let c = press_seq(p2);
    let d = gap_seq(w);
    lemma_run_press(DetectorState::Idle, 0, p1);
    lemma_run_gap(0, g1);
    lemma_run_press(DetectorState::Released { gap: g1 as u32, clicks: 1 }, 1, p2);
    lemma_run_tail(1);
    lemma_run_concat(DetectorState::Idle, a, b);
    lemma_run_concat(DetectorState::Idle, a + b, c);
    lemma_run_concat(DetectorState::Idle, a + b + c, d);
}

/// A clean triple press: three debounced presses separated by short gaps,
/// then the full window of release. Exactly one message is emitted and it
/// is a triple click.
pub proof fn lemma_clean_triple_press(p1: int, g1: int, p2: int, g2: int, p3: int)
    requires
        p1 >= DEBOUNCE_TICKS,
        p2 >= DEBOUNCE_TICKS,
        p3 >= DEBOUNCE_TICKS,
        1 <= g1 < RELEASE_GAP_TICKS,
        1 <= g2 < RELEASE_GAP_TICKS,
    ensures
        ({
            let samples = press_seq(p1) + gap_seq(g1) + press_seq(p2) + gap_seq(g2) + press_seq(p3)
                + gap_seq(RELEASE_GAP_TICKS as int);
            spec_run(DetectorState::Idle, samples).0 == DetectorState::Idle && spec_run(
                DetectorState::Idle,
                samples,
            ).1 =~= seq![KeyClickedType::TripleClicked]
        }),
{
    let w = RELEASE_GAP_TICKS as int;
    let a = press_seq(p1);
    let b = gap_seq(g1);
    let c = press_seq(p2);
    let d = gap_seq(g2);
    let e = press_seq(p3);
    let f = gap_seq(w);
    lemma_run_press(DetectorState::Idle, 0, p1);
    lemma_run_gap(0, g1);
    lemma_run_press(DetectorState::Released { gap: g1 as u32, clicks: 1 }, 1, p2);
    lemma_run_gap(1, g2);
    lemma_run_press(DetectorState::Released { gap: g2 as u32, clicks: 2 }, 2, p3);
    lemma_run_tail(2);
    lemma_run_concat(DetectorState::Idle, a, b);
    lemma_run_concat(DetectorState::Idle, a + b, c);
    lemma_run_concat(DetectorState::Idle, a + b + c, d);
    lemma_run_concat(DetectorState::Idle, a + b + c + d, e);
    lemma_run_concat(DetectorState::Idle, a + b + c + d + e, f);
}

/// A press shorter than the debounce threshold, however long the silence
/// after it: no message at all, and once the key is released the detector
/// is back at rest.
pub proof fn lemma_short_press_no_message(p: int, rest: int)
    requires
        1 <= p < DEBOUNCE_TICKS,
        rest >= 0,
    ensures
        ({
            let samples = press_seq(p) + gap_seq(rest);
            spec_run(DetectorState::Idle, samples).1 =~= Seq::<KeyClickedType>::empty() && (rest
                >= 1 ==> spec_run(DetectorState::Idle, samples).0 == DetectorState::Idle)
        }),
{
    assert(press_seq(p)[0] == true);
    assert(press_seq(p).subrange(1, p) =~= press_seq(p - 1));
    lemma_run_hold(1, 0, p - 1);
    let s1 = DetectorState::Pressed { held: p as u32, clicks: 0 };
    assert(spec_run(DetectorState::Idle, press_seq(p)).0 == s1);
    if rest >= 1 {
        assert(gap_seq(rest)[0] == false);
        assert(gap_seq(rest).subrange(1, rest) =~= gap_seq(rest - 1));
        assert(spec_step(s1, false).0 == DetectorState::Idle);
        lemma_run_idle_gap(rest - 1);
    }
    lemma_run_concat(DetectorState::Idle, press_seq(p), gap_seq(rest));
}

/// Silence keeps the detector at rest.
proof fn lemma_run_idle_gap(n: int)
    requires
        n >= 0,
    ensures
        spec_run(DetectorState::Idle, gap_seq(n)).0 == DetectorState::Idle,
        spec_run(DetectorState::Idle, gap_seq(n)).1 =~= Seq::<KeyClickedType>::empty(),
    decreases n,
{
    if n > 0 {
        assert(gap_seq(n)[0] == false);
        assert(gap_seq(n).subrange(1, n) =~= gap_seq(n - 1));
        lemma_run_idle_gap(n - 1);
    }
}

} // verus!
