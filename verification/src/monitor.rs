//! Proximity monitoring: baseline tracking, drift classification, and the
//! stall-recovery state machine that supervises the discovery stream.

use vstd::prelude::*;
use crate::discovery::DiscoveredDevice;

verus! {

/// Bounded wait for the next observation, in seconds.
pub const TIMEOUT_SECS: u64 = 15;

/// Pause before rebuilding the stream after a stall or stream end, in
/// seconds.
pub const REFRESH_BACKOFF_SECS: u64 = 1;

/// Pause before retrying a failed stream acquisition, in seconds.
pub const ERROR_BACKOFF_SECS: u64 = 3;

/// Per-monitoring-run mutable state: the signal-strength baseline, set
/// once from the first observation that carries a signal strength, and
/// the count of stream timeouts seen without an intervening reset.
#[derive(Debug, Clone)]
pub struct ProximitySession {
    pub baseline_signal: Option<i16>,
    pub consecutive_stall_count: u32,
}

/// An event emitted outward by the monitor: a normal proximity event, an
/// over-drift alert, or a stall notice.
#[derive(Debug, Clone)]
pub enum OutwardEvent {
    Proximity {
        event_type: String,
        local_name: String,
        id: String,
        rssi: i16,
        diff_rssi: i32,
    },
    OverDrift { diff_rssi: i32 },
    StallNotice,
}

/// Signed difference between a current signal strength and the session
/// baseline. Widened to `int` so the specification never overflows.
pub open spec fn spec_rssi_diff(current: i16, baseline: i16) -> int {
    current - baseline
}

/// A sample is in range when no drift threshold is configured, or when the
/// tolerated weakening plus the observed drift is still positive.
pub open spec fn spec_in_range(rssi_delta_max: Option<i16>, diff_rssi: int) -> bool {
    match rssi_delta_max {
        None => true,
        Some(delta_max) => delta_max + diff_rssi > 0,
    }
}

/// The baseline after seeing a signal strength: an already-set baseline
/// is never overwritten; an unset one is fixed to this sample.
pub open spec fn spec_baseline_after(baseline: Option<i16>, rssi: i16) -> Option<i16> {
    if baseline is Some {
        baseline
    } else {
        Some(rssi)
    }
}

/// Classification of one observation against a baseline and a drift
/// threshold: the new baseline and the event to emit, if any.
///
/// An observation without a signal strength is discarded and mutates
/// nothing. Otherwise the (possibly just-established) baseline gives the
/// drift; an in-range sample yields a proximity event whose display name
/// falls back to the identifier, and an out-of-range one yields an
/// over-drift alert.
pub open spec fn spec_classify(
    baseline: Option<i16>,
    device: DiscoveredDevice,
    rssi_delta_max: Option<i16>,
) -> (Option<i16>, Option<OutwardEvent>) {
    match device.rssi {
        None => (baseline, None),
        Some(rssi) => {
            let new_baseline = spec_baseline_after(baseline, rssi);
            let diff = spec_rssi_diff(rssi, new_baseline->0);
            if spec_in_range(rssi_delta_max, diff) {
                (
                    new_baseline,
                    Some(
                        OutwardEvent::Proximity {
                            event_type: device.event_type,
                            local_name: match device.local_name {
                                Some(name) => name,
                                None => device.id,
                            },
                            id: device.id,
                            rssi,
                            diff_rssi: diff as i32,
                        },
                    ),
                )
            } else {
                (new_baseline, Some(OutwardEvent::OverDrift { diff_rssi: diff as i32 }))
            }
        },
    }
}

/// Drift of `current` relative to `baseline`, in dBm.
pub fn rssi_diff(current: i16, baseline: i16) -> (diff: i32)
    ensures
        diff == spec_rssi_diff(current, baseline),
{
    (current as i32) - (baseline as i32)
}

/// Whether a sample with drift `diff_rssi` is still in range under the
/// configured threshold. An absent threshold disables drift alerting.
pub fn is_in_range(rssi_delta_max: Option<i16>, diff_rssi: i32) -> (r: bool)
    ensures
        r == spec_in_range(rssi_delta_max, diff_rssi as int),
{
    match rssi_delta_max {
        None => true,
        Some(delta_max) => (delta_max as i64) + (diff_rssi as i64) > 0,
    }
}

impl ProximitySession {
    /// A fresh session: no baseline, no stalls seen.
    pub fn new() -> (session: Self)
        ensures
            session.baseline_signal is None,
            session.consecutive_stall_count == 0,
    {
        ProximitySession { baseline_signal: None, consecutive_stall_count: 0 }
    }

    /// Classifies one observation, updating the baseline as
    /// [`spec_classify`] describes and leaving the stall count alone.
    /// Returns the event to emit outward, if any.
    pub fn classify_observation(
        &mut self,
        device: DiscoveredDevice,
        rssi_delta_max: Option<i16>,
    ) -> (event: Option<OutwardEvent>)
        ensures
            final(self).baseline_signal == spec_classify(
                old(self).baseline_signal,
                device,
                rssi_delta_max,
            ).0,
            event == spec_classify(old(self).baseline_signal, device, rssi_delta_max).1,
            final(self).consecutive_stall_count == old(self).consecutive_stall_count,
    {
        let rssi = match device.rssi {
            Some(rssi) => rssi,
            None => {
                return None;
            },
        };
        if self.baseline_signal.is_none() {
            self.baseline_signal = Some(rssi);
        }
        let baseline = match self.baseline_signal {
            Some(b) => b,
            None => unreached(),
        };
        let diff_rssi = rssi_diff(rssi, baseline);
        if is_in_range(rssi_delta_max, diff_rssi) {
            let local_name = match device.local_name {
                Some(name) => name,
                None => device.id.clone(),
            };
            Some(
                OutwardEvent::Proximity {
                    event_type: device.event_type,
                    local_name,
                    id: device.id,
                    rssi,
                    diff_rssi,
                },
            )
        } else {
            Some(OutwardEvent::OverDrift { diff_rssi })
        }
    }
}

/// The monitor's control state.
///
/// `Acquiring`: a discovery stream is being opened (with a long backoff
/// after a failed attempt). `Streaming`: observations are awaited with a
/// bounded wait. `Cooldown`: a short pause before the stream is rebuilt.
#[derive(Debug, Clone, Copy, PartialEq, Eq, Structural)]
pub enum MonitorState {
    Acquiring,
    Streaming,
    Cooldown,
}

/// What the runner observed and feeds back into the state machine.
#[derive(Debug, Clone)]
pub enum StreamEvent {
    /// A discovery stream was opened.
    Opened,
    /// Opening a discovery stream failed.
    OpenFailed,
    /// The stream produced an observation within the bounded wait.
    Observation(DiscoveredDevice),
    /// The bounded wait elapsed without an observation.
    TimedOut,
    /// The stream terminated without producing an item.
    Ended,
    /// The backoff the machine last asked for has elapsed.
    BackoffElapsed,
}

/// What the runner must do next: open a fresh discovery stream, await
/// the next observation with the bounded wait, or sleep for the given
/// number of seconds and then report `BackoffElapsed`.
#[derive(Debug, Clone, Copy, PartialEq, Eq, Structural)]
pub enum MonitorAction {
    OpenStream,
    AwaitObservation,
    Sleep(u64),
}

/// Which events can arrive in which state.
pub open spec fn spec_event_fits(state: MonitorState, event: StreamEvent) -> bool {
    match state {
        MonitorState::Acquiring => event is Opened || event is OpenFailed
            || event is BackoffElapsed,
        MonitorState::Streaming => event is Observation || event is TimedOut || event is Ended,
        MonitorState::Cooldown => event is BackoffElapsed,
    }
}

/// The proximity monitor: control state, the session it owns, and the
/// configured drift threshold.
#[derive(Debug, Clone)]
pub struct ProximityMonitor {
    pub state: MonitorState,
    pub session: ProximitySession,
    pub rssi_delta_max: Option<i16>,
}

/// One transition of the monitoring state machine: the successor
/// monitor, the event to emit outward (if any), and the action the
/// runner must perform next.
///
/// The policy: an observation resets the stall count and is classified;
/// a first timeout silently enters the cooldown that rebuilds the
/// stream; a second consecutive timeout emits a stall notice, resets the
/// count, and keeps waiting on the same stream; a terminated stream
/// enters cooldown; a failed acquisition backs off and retries. The
/// session — baseline included — survives every transition except
/// classification's own baseline update.
pub open spec fn spec_step(m: ProximityMonitor, event: StreamEvent) -> (
    ProximityMonitor,
    Option<OutwardEvent>,
    MonitorAction,
) {
    match m.state {
        MonitorState::Acquiring => match event {
            StreamEvent::Opened => (
                ProximityMonitor { state: MonitorState::Streaming, ..m },
                None,
                MonitorAction::AwaitObservation,
            ),
            StreamEvent::OpenFailed => (m, None, MonitorAction::Sleep(ERROR_BACKOFF_SECS)),
            _ => (m, None, MonitorAction::OpenStream),
        },
        MonitorState::Streaming => match event {
            StreamEvent::Observation(device) => {
                let (new_baseline, emitted) = spec_classify(
                    m.session.baseline_signal,
                    device,
                    m.rssi_delta_max,
                );
                (
                    ProximityMonitor {
                        session: ProximitySession {
                            baseline_signal: new_baseline,
                            consecutive_stall_count: 0,
                        },
                        ..m
                    },
                    emitted,
                    MonitorAction::AwaitObservation,
                )
            },
            StreamEvent::TimedOut => if m.session.consecutive_stall_count + 1 <= 1 {
                (
                    ProximityMonitor {
                        state: MonitorState::Cooldown,
                        session: ProximitySession {
                            consecutive_stall_count: (m.session.consecutive_stall_count + 1) as u32,
                            ..m.session
                        },
                        ..m
                    },
                    None,
                    MonitorAction::Sleep(REFRESH_BACKOFF_SECS),
                )
            } else {
                (
                    ProximityMonitor {
                        session: ProximitySession { consecutive_stall_count: 0, ..m.session },
                        ..m
                    },
                    Some(OutwardEvent::StallNotice),
                    MonitorAction::AwaitObservation,
                )
            },
            _ => (
                ProximityMonitor { state: MonitorState::Cooldown, ..m },
                None,
                MonitorAction::Sleep(REFRESH_BACKOFF_SECS),
            ),
        },
        MonitorState::Cooldown => (
            ProximityMonitor { state: MonitorState::Acquiring, ..m },
            None,
            MonitorAction::OpenStream,
        ),
    }
}

impl ProximityMonitor {
    /// The stall count never exceeds one between transitions.
    pub open spec fn wf(self) -> bool {
        self.session.consecutive_stall_count <= 1
    }

    /// A fresh monitor for one monitoring run: acquiring, with a fresh
    /// session and the given drift threshold.
    pub fn new(rssi_delta_max: Option<i16>) -> (m: Self)
        ensures
            m.state is Acquiring,
            m.session.baseline_signal is None,
            m.session.consecutive_stall_count == 0,
            m.rssi_delta_max == rssi_delta_max,
            m.wf(),
    {
        ProximityMonitor {
            state: MonitorState::Acquiring,
            session: ProximitySession::new(),
            rssi_delta_max,
        }
    }

    /// The action that starts a monitoring run: open a stream.
    pub fn initial_action(&self) -> (action: MonitorAction)
        ensures
            action is OpenStream,
    {
        MonitorAction::OpenStream
    }

    /// Feeds one event into the state machine, as [`spec_step`]
    /// describes. Returns the event to emit outward (if any) and the
    /// next action for the runner.
    pub fn step(&mut self, event: StreamEvent) -> (r: (Option<OutwardEvent>, MonitorAction))
        requires
            old(self).wf(),
            spec_event_fits(old(self).state, event),
        ensures
            *final(self) == spec_step(*old(self), event).0,
            r.0 == spec_step(*old(self), event).1,
            r.1 == spec_step(*old(self), event).2,
            final(self).wf(),
    {
        match self.state {
            MonitorState::Acquiring => match event {
                StreamEvent::Opened => {
                    self.state = MonitorState::Streaming;
                    (None, MonitorAction::AwaitObservation)
                },
                StreamEvent::OpenFailed => (None, MonitorAction::Sleep(ERROR_BACKOFF_SECS)),
                _ => (None, MonitorAction::OpenStream),
            },
            MonitorState::Streaming => match event {
                StreamEvent::Observation(device) => {
                    let emitted = self.session.classify_observation(device, self.rssi_delta_max);
                    self.session.consecutive_stall_count = 0;
                    (emitted, MonitorAction::AwaitObservation)
                },
                StreamEvent::TimedOut => {
                    if self.session.consecutive_stall_count == 0 {
                        self.session.consecutive_stall_count = 1;
                        self.state = MonitorState::Cooldown;
                        (None, MonitorAction::Sleep(REFRESH_BACKOFF_SECS))
                    } else {
                        self.session.consecutive_stall_count = 0;
                        (Some(OutwardEvent::StallNotice), MonitorAction::AwaitObservation)
                    }
                },
                _ => {
                    self.state = MonitorState::Cooldown;
                    (None, MonitorAction::Sleep(REFRESH_BACKOFF_SECS))
                },
            },
            MonitorState::Cooldown => {
                self.state = MonitorState::Acquiring;
                (None, MonitorAction::OpenStream)
            },
        }
    }
}

/// Classification of a whole observation sequence: the final baseline
/// and, for each observation, the event it yielded (if any).
pub open spec fn spec_run_classification(
    baseline: Option<i16>,
    devices: Seq<DiscoveredDevice>,
    rssi_delta_max: Option<i16>,
) -> (Option<i16>, Seq<Option<OutwardEvent>>)
    decreases devices.len(),
{
    if devices.len() == 0 {
        (baseline, Seq::empty())
    } else {
        let first = spec_classify(baseline, devices[0], rssi_delta_max);
        let rest = spec_run_classification(first.0, devices.drop_first(), rssi_delta_max);
        (rest.0, seq![first.1] + rest.1)
    }
}

/// The drift a classified event reports, if it reports one.
pub open spec fn spec_event_diff(event: OutwardEvent) -> Option<int> {
    match event {
        OutwardEvent::Proximity { diff_rssi, .. } => Some(diff_rssi as int),
        OutwardEvent::OverDrift { diff_rssi } => Some(diff_rssi as int),
        OutwardEvent::StallNotice => None,
    }
}

/// Drift-disabled law: with no drift threshold configured, every
/// observation that carries a signal strength yields a normal proximity
/// event.
pub proof fn lemma_no_threshold_always_in_range(
    baseline: Option<i16>,
    devices: Seq<DiscoveredDevice>,
)
    requires
        forall|i: int| 0 <= i < devices.len() ==> (#[trigger] devices[i]).rssi is Some,
    ensures
        spec_run_classification(baseline, devices, None).1.len() == devices.len(),
        forall|i: int| 0 <= i < devices.len() ==>
            ((#[trigger] spec_run_classification(baseline, devices, None).1[i]) matches Some(e)
                && e is Proximity),
    decreases devices.len(),
{
    if devices.len() > 0 {
        let first = spec_classify(baseline, devices[0], None);
        lemma_no_threshold_always_in_range(first.0, devices.drop_first());
        assert(forall|i: int| 0 <= i < devices.drop_first().len() ==>
            #[trigger] devices.drop_first()[i] == devices[i + 1]);
    }
}

/// Baseline-set law, steady part: once the baseline is fixed at `b`, a
/// whole observation sequence leaves it at `b`, and every classified
/// event reports its signal's drift relative to that fixed value.
pub proof fn lemma_baseline_fixed(
    b: i16,
    devices: Seq<DiscoveredDevice>,
    rssi_delta_max: Option<i16>,
)
    ensures
        spec_run_classification(Some(b), devices, rssi_delta_max).0 == Some(b),
        spec_run_classification(Some(b), devices, rssi_delta_max).1.len() == devices.len(),
        forall|i: int| 0 <= i < devices.len() ==>
            ((#[trigger] devices[i]).rssi matches Some(s)
                ==> spec_run_classification(Some(b), devices, rssi_delta_max).1[i] matches Some(e)
                    && spec_event_diff(e) == Some(s - b as int)),
    decreases devices.len(),
{
    if devices.len() > 0 {
        lemma_baseline_fixed(b, devices.drop_first(), rssi_delta_max);
        assert(forall|i: int| 0 <= i < devices.drop_first().len() ==>
            #[trigger] devices.drop_first()[i] == devices[i + 1]);
        let first = spec_classify(Some(b), devices[0], rssi_delta_max);
        let rest = spec_run_classification(Some(b), devices.drop_first(), rssi_delta_max).1;
        let events = spec_run_classification(Some(b), devices, rssi_delta_max).1;
        assert(first.0 == Some(b));
        assert(events == seq![first.1] + rest);
        assert forall|i: int|
            0 <= i < devices.len() && (#[trigger] devices[i]).rssi is Some
        implies events[i] is Some
            && spec_event_diff(events[i]->0) == Some(devices[i].rssi->0 - b as int) by {
            if i == 0 {
                let s = devices[0].rssi->0;
                let diff: int = s - b;
                assert(diff as i32 == diff);
                assert(events[0] == first.1);
            } else {
                assert(devices.drop_first()[i - 1] == devices[i]);
                assert(events[i] == rest[i - 1]);
            }
        }
    }
}

/// Baseline-set law: the first observation carrying a signal strength
/// fixes the baseline at that value for the rest of the sequence;
/// observations before it are discarded, and every later classified
/// event reports its drift relative to the fixed baseline, not a moving
/// one.
pub proof fn lemma_baseline_set_once(
    devices: Seq<DiscoveredDevice>,
    rssi_delta_max: Option<i16>,
    k: int,
)
    requires
        0 <= k < devices.len(),
        devices[k].rssi is Some,
        forall|j: int| 0 <= j < k ==> (#[trigger] devices[j]).rssi is None,
    ensures
        spec_run_classification(None, devices, rssi_delta_max).0 == devices[k].rssi,
        spec_run_classification(None, devices, rssi_delta_max).1.len() == devices.len(),
        forall|j: int| 0 <= j < k ==>
            (#[trigger] spec_run_classification(None, devices, rssi_delta_max).1[j]) is None,
        forall|i: int| k <= i < devices.len() ==>
            ((#[trigger] devices[i]).rssi matches Some(s)
                ==> spec_run_classification(None, devices, rssi_delta_max).1[i] matches Some(e)
                    && spec_event_diff(e) == Some(s - devices[k].rssi->0 as int)),
    decreases devices.len(),
{
    let b = devices[k].rssi->0;
    let first = spec_classify(None, devices[0], rssi_delta_max);
    let events = spec_run_classification(None, devices, rssi_delta_max).1;
    assert(forall|i: int| 0 <= i < devices.drop_first().len() ==>
        #[trigger] devices.drop_first()[i] == devices[i + 1]);
    if k == 0 {
        lemma_baseline_fixed(b, devices.drop_first(), rssi_delta_max);
        let rest = spec_run_classification(Some(b), devices.drop_first(), rssi_delta_max).1;
        assert(first.0 == Some(b));
        assert(events == seq![first.1] + rest);
        assert forall|i: int|
            0 <= i < devices.len() && (#[trigger] devices[i]).rssi is Some
        implies events[i] is Some
            && spec_event_diff(events[i]->0) == Some(devices[i].rssi->0 - b as int) by {
            if i == 0 {
                let s = devices[0].rssi->0;
                let diff: int = s - b;
                assert(diff as i32 == diff);
                assert(events[0] == first.1);
            } else {
                assert(devices.drop_first()[i - 1] == devices[i]);
                assert(events[i] == rest[i - 1]);
            }
        }
    } else {
        lemma_baseline_set_once(devices.drop_first(), rssi_delta_max, k - 1);
        let rest = spec_run_classification(None, devices.drop_first(), rssi_delta_max).1;
        assert(first == (None::<i16>, None::<OutwardEvent>));
        assert(events == seq![first.1] + rest);
        assert forall|i: int|
            k <= i < devices.len() && (#[trigger] devices[i]).rssi is Some
        implies events[i] is Some
            && spec_event_diff(events[i]->0) == Some(devices[i].rssi->0 - b as int) by {
            assert(devices.drop_first()[i - 1] == devices[i]);
            assert(events[i] == rest[i - 1]);
        }
        assert forall|j: int| 0 <= j < k implies (#[trigger] events[j]) is None by {
            if j == 0 {
                assert(events[0] == first.1);
            } else {
                assert(events[j] == rest[j - 1]);
            }
        }
    }
}

/// Drift-boundary law: with baseline `B` and threshold `M`, an
/// observation with signal `S` is in range exactly when
/// `M + (S - B) > 0`; in particular `M + (S - B) == 0` classifies as
/// over-drift and `M + (S - B) == 1` as in-range.
pub proof fn lemma_drift_boundary(baseline: i16, delta_max: i16, signal: i16)
    ensures
        spec_in_range(Some(delta_max), spec_rssi_diff(signal, baseline))
            <==> delta_max + (signal - baseline) > 0,
        delta_max + (signal - baseline) == 0
            ==> !spec_in_range(Some(delta_max), spec_rssi_diff(signal, baseline)),
        delta_max + (signal - baseline) == 1
            ==> spec_in_range(Some(delta_max), spec_rssi_diff(signal, baseline)),
{
}

/// Stall-escalation law: on a stream with no stalls recorded, a first
/// timeout is silent and rebuilds the stream (cooldown, then a fresh
/// acquisition), while the next consecutive timeout emits exactly one
/// stall notice, resets the count, and keeps waiting on the same stream;
/// the session baseline survives the whole episode.
pub proof fn lemma_stall_escalation(m: ProximityMonitor)
    requires
        m.state is Streaming,
        m.session.consecutive_stall_count == 0,
    ensures
        ({
            let s1 = spec_step(m, StreamEvent::TimedOut);
            let s2 = spec_step(s1.0, StreamEvent::BackoffElapsed);
            let s3 = spec_step(s2.0, StreamEvent::Opened);
            let s4 = spec_step(s3.0, StreamEvent::TimedOut);
            &&& s1.1 is None
            &&& s1.0.state is Cooldown
            &&& s2.1 is None
            &&& s3.1 is None
            &&& s3.0.state is Streaming
            &&& s4.1 matches Some(e) && e is StallNotice
            &&& s4.0.state is Streaming
            &&& s4.0.session.consecutive_stall_count == 0
            &&& s4.0.session.baseline_signal == m.session.baseline_signal
        }),
{
}

/// Stall-recovery law: one timeout followed by a received observation
/// produces no stall notice — the timeout triggers the one silent
/// rebuild, and the observation resets the stall count.
pub proof fn lemma_stall_recovery(m: ProximityMonitor, device: DiscoveredDevice)
    requires
        m.state is Streaming,
        m.session.consecutive_stall_count == 0,
    ensures
        ({
            let s1 = spec_step(m, StreamEvent::TimedOut);
            let s2 = spec_step(s1.0, StreamEvent::BackoffElapsed);
            let s3 = spec_step(s2.0, StreamEvent::Opened);
            let s4 = spec_step(s3.0, StreamEvent::Observation(device));
            &&& s1.1 is None
            &&& s1.0.state is Cooldown
            &&& s2.1 is None
            &&& s3.1 is None
            &&& (s4.1 matches Some(e) ==> !(e is StallNotice))
            &&& s4.0.state is Streaming
            &&& s4.0.session.consecutive_stall_count == 0
        }),
{
}

/// The outward channel an event is delivered on.
pub fn event_channel(event: &OutwardEvent) -> (name: &'static str)
    ensures
        event is Proximity ==> name@ == "bluetooth-event"@,
        event is OverDrift ==> name@ == "bluetooth-over-delta-rssi"@,
        event is StallNotice ==> name@ == "bluetooth-refresh-timeout"@,
{
    match event {
        OutwardEvent::Proximity { .. } => "bluetooth-event",
        OutwardEvent::OverDrift { .. } => "bluetooth-over-delta-rssi",
        OutwardEvent::StallNotice => "bluetooth-refresh-timeout",
    }
}

} // verus!
