//! The network bootstrap: scan, configure, connect, verify.
//!
//! [`Bootstrap`] is a state machine without I/O. The caller performs each
//! [`BootstrapAction`] on the wireless driver and hands the driver's answer
//! back as a [`BootstrapEvent`]. A step is only asked for once the step
//! before it has succeeded, a failure ends the bootstrap for good, and the
//! link counts as up only after a batch of probes to the gateway came back
//! without loss.

use crate::network::{
    gateway_of, planned_config, AccessPoint, CombinedStatus, NetworkConfig, NetworkConfigView,
    ReachabilityReport,
};
use vstd::prelude::*;

verus! {

/// Number of probes in the batch that verifies the link.
pub const PROBE_COUNT: u32 = 4;

/// Where the bootstrap stands.
#[derive(Clone, Copy, Debug, PartialEq, Eq, Structural)]
pub enum NetworkState {
    Idle,
    Scanning,
    Configuring,
    Connecting,
    Verifying,
    Connected,
    Failed,
}

/// Why the bootstrap ended without a usable link. None of these is retried.
#[derive(Clone, Copy, Debug, PartialEq, Eq, Structural)]
pub enum BootstrapError {
    /// The driver could not complete the scan.
    ScanIncomplete,
    /// The driver refused the configuration.
    ConfigRejected,
    /// The driver could not establish the client link.
    ConnectFailed,
    /// The status was not that of a client that is linked and
    /// address-assigned beside a fully started local access point.
    UnexpectedStatus,
    /// Probes to the gateway were lost, or could not be sent.
    Unreachable,
}

/// What the driver answered.
#[derive(Debug, PartialEq, Eq)]
pub enum BootstrapEvent {
    /// The caller asks for the bootstrap to begin.
    Begin,
    ScanCompleted(Vec<AccessPoint>),
    ScanFailed,
    ConfigApplied,
    ConfigRejected,
    StatusReported(CombinedStatus),
    ConnectFailed,
    ProbeCompleted(ReachabilityReport),
    ProbeFailed,
}

/// What to ask of the driver next.
#[derive(Debug, PartialEq, Eq)]
pub enum BootstrapAction {
    /// Enumerate the visible access points.
    Scan,
    /// Apply the dual-role configuration.
    ApplyConfig(NetworkConfig),
    /// Establish the client link and report the status of both roles.
    Connect,
    /// Send `count` probes to the IPv4 address `target`.
    Probe { target: u32, count: u32 },
    /// The link is up and verified; nothing more to ask.
    Done,
    /// The bootstrap failed; nothing more to ask.
    Abort(BootstrapError),
    /// The event answered no outstanding request and was ignored.
    Ignore,
}

pub enum BootstrapActionView {
    Scan,
    ApplyConfig(NetworkConfigView),
    Connect,
    Probe { target: u32, count: u32 },
    Done,
    Abort(BootstrapError),
    Ignore,
}

impl View for BootstrapAction {
    type V = BootstrapActionView;

    open spec fn view(&self) -> BootstrapActionView {
        match *self {
            BootstrapAction::Scan => BootstrapActionView::Scan,
            BootstrapAction::ApplyConfig(config) => BootstrapActionView::ApplyConfig(config@),
            BootstrapAction::Connect => BootstrapActionView::Connect,
            BootstrapAction::Probe { target, count } => BootstrapActionView::Probe {
                target,
                count,
            },
            BootstrapAction::Done => BootstrapActionView::Done,
            BootstrapAction::Abort(error) => BootstrapActionView::Abort(error),
            BootstrapAction::Ignore => BootstrapActionView::Ignore,
        }
    }
}

/// The verified link: the configuration that was applied and the gateway
/// that answered every probe.
#[derive(Debug, PartialEq, Eq)]
pub struct NetworkHandle {
    config: NetworkConfig,
    gateway: u32,
}

pub struct NetworkHandleView {
    pub config: NetworkConfigView,
    pub gateway: u32,
}

impl View for NetworkHandle {
    type V = NetworkHandleView;

    closed spec fn view(&self) -> NetworkHandleView {
        NetworkHandleView { config: self.config@, gateway: self.gateway }
    }
}

impl Clone for NetworkHandle {
    fn clone(&self) -> (copy: Self)
        ensures
            copy == *self,
    {
        NetworkHandle { config: self.config.clone(), gateway: self.gateway }
    }
}

impl NetworkHandle {
    /// The configuration that the driver runs.
    pub fn config(&self) -> (config: &NetworkConfig)
        ensures
            config@ == self@.config,
    {
        &self.config
    }

    /// The IPv4 address of the gateway, as a big-endian integer.
    pub fn gateway(&self) -> (gateway: u32)
        ensures
            gateway == self@.gateway,
    {
        self.gateway
    }
}

/// The state of the bootstrap with what it has learned so far.
pub enum PhaseView {
    Idle,
    Scanning,
    Configuring(NetworkConfigView),
    Connecting(NetworkConfigView),
    Verifying(NetworkHandleView),
    Connected(NetworkHandleView),
    Failed(BootstrapError),
}

impl PhaseView {
    pub open spec fn state(self) -> NetworkState {
        match self {
            PhaseView::Idle => NetworkState::Idle,
            PhaseView::Scanning => NetworkState::Scanning,
            PhaseView::Configuring(_) => NetworkState::Configuring,
            PhaseView::Connecting(_) => NetworkState::Connecting,
            PhaseView::Verifying(_) => NetworkState::Verifying,
            PhaseView::Connected(_) => NetworkState::Connected,
            PhaseView::Failed(_) => NetworkState::Failed,
        }
    }

    /// The bootstrap has ended, one way or the other.
    pub open spec fn is_terminal(self) -> bool {
        self is Connected || self is Failed
    }
}

pub struct BootstrapView {
    pub ssid: Seq<char>,
    pub credential: Seq<char>,
    pub phase: PhaseView,
}

impl BootstrapView {
    /// The bootstrap before anything was asked of the driver.
    pub open spec fn initial(ssid: Seq<char>, credential: Seq<char>) -> BootstrapView {
        BootstrapView { ssid, credential, phase: PhaseView::Idle }
    }

    /// The phase after `event`. An event that answers the outstanding
    /// request moves the bootstrap on or fails it; any other event, and
    /// every event after the bootstrap has ended, changes nothing.
    pub open spec fn next_phase(self, event: BootstrapEvent) -> PhaseView {
        match (self.phase, event) {
            (PhaseView::Idle, BootstrapEvent::Begin) => PhaseView::Scanning,
            (PhaseView::Scanning, BootstrapEvent::ScanCompleted(aps)) => PhaseView::Configuring(
                planned_config(self.ssid, self.credential, aps@),
            ),
            (PhaseView::Scanning, BootstrapEvent::ScanFailed) => PhaseView::Failed(
                BootstrapError::ScanIncomplete,
            ),
            (PhaseView::Configuring(config), BootstrapEvent::ConfigApplied) => {
                PhaseView::Connecting(config)
            },
            (PhaseView::Configuring(_), BootstrapEvent::ConfigRejected) => PhaseView::Failed(
                BootstrapError::ConfigRejected,
            ),
            (PhaseView::Connecting(config), BootstrapEvent::StatusReported(status)) => {
                match gateway_of(status) {
                    Some(gateway) => PhaseView::Verifying(NetworkHandleView { config, gateway }),
                    None => PhaseView::Failed(BootstrapError::UnexpectedStatus),
                }
            },
            (PhaseView::Connecting(_), BootstrapEvent::ConnectFailed) => PhaseView::Failed(
                BootstrapError::ConnectFailed,
            ),
            (PhaseView::Verifying(link), BootstrapEvent::ProbeCompleted(report)) => {
                if report.lossless() {
                    PhaseView::Connected(link)
                } else {
                    PhaseView::Failed(BootstrapError::Unreachable)
                }
            },
            (PhaseView::Verifying(_), BootstrapEvent::ProbeFailed) => PhaseView::Failed(
                BootstrapError::Unreachable,
            ),
            (phase, _) => phase,
        }
    }

    /// Whether `event` answers the request that is outstanding.
    pub open spec fn expects(self, event: BootstrapEvent) -> bool {
        match (self.phase, event) {
            (PhaseView::Idle, BootstrapEvent::Begin) => true,
            (PhaseView::Scanning, BootstrapEvent::ScanCompleted(_)) => true,
            (PhaseView::Scanning, BootstrapEvent::ScanFailed) => true,
            (PhaseView::Configuring(_), BootstrapEvent::ConfigApplied) => true,
            (PhaseView::Configuring(_), BootstrapEvent::ConfigRejected) => true,
            (PhaseView::Connecting(_), BootstrapEvent::StatusReported(_)) => true,
            (PhaseView::Connecting(_), BootstrapEvent::ConnectFailed) => true,
            (PhaseView::Verifying(_), BootstrapEvent::ProbeCompleted(_)) => true,
            (PhaseView::Verifying(_), BootstrapEvent::ProbeFailed) => true,
            _ => false,
        }
    }

    /// The state after `event`.
    pub open spec fn step(self, event: BootstrapEvent) -> BootstrapView {
        BootstrapView { ssid: self.ssid, credential: self.credential, phase: self.next_phase(event) }
    }

    /// What `event` makes the bootstrap ask for: the request that belongs
    /// to the phase it enters, or nothing where the event was ignored.
    pub open spec fn action(self, event: BootstrapEvent) -> BootstrapActionView {
        if !self.expects(event) {
            BootstrapActionView::Ignore
        } else {
            match self.next_phase(event) {
                PhaseView::Idle => BootstrapActionView::Ignore,
                PhaseView::Scanning => BootstrapActionView::Scan,
                PhaseView::Configuring(config) => BootstrapActionView::ApplyConfig(config),
                PhaseView::Connecting(_) => BootstrapActionView::Connect,
                PhaseView::Verifying(link) => BootstrapActionView::Probe {
                    target: link.gateway,
                    count: PROBE_COUNT,
                },
                PhaseView::Connected(_) => BootstrapActionView::Done,
                PhaseView::Failed(error) => BootstrapActionView::Abort(error),
            }
        }
    }

    /// The state after the events `events`, taken from first to last.
    pub open spec fn run(self, events: Seq<BootstrapEvent>) -> BootstrapView
        decreases events.len(),
    {
        if events.len() == 0 {
            self
        } else {
            self.run(events.drop_last()).step(events.last())
        }
    }

    /// How the bootstrap ended, or nothing while it is under way.
    pub open spec fn outcome(self) -> Option<Result<NetworkHandleView, BootstrapError>> {
        match self.phase {
            PhaseView::Connected(link) => Some(Ok(link)),
            PhaseView::Failed(error) => Some(Err(error)),
            _ => None,
        }
    }
}

enum Phase {
    Idle,
    Scanning,
    Configuring(NetworkConfig),
    Connecting(NetworkConfig),
    Verifying(NetworkHandle),
    Connected(NetworkHandle),
    Failed(BootstrapError),
}

impl View for Phase {
    type V = PhaseView;

    closed spec fn view(&self) -> PhaseView {
        match *self {
            Phase::Idle => PhaseView::Idle,
            Phase::Scanning => PhaseView::Scanning,
            Phase::Configuring(config) => PhaseView::Configuring(config@),
            Phase::Connecting(config) => PhaseView::Connecting(config@),
            Phase::Verifying(link) => PhaseView::Verifying(link@),
            Phase::Connected(link) => PhaseView::Connected(link@),
            Phase::Failed(error) => PhaseView::Failed(error),
        }
    }
}

/// The bootstrap of one network link.
pub struct Bootstrap {
    ssid: String,
    credential: String,
    phase: Phase,
}

impl View for Bootstrap {
    type V = BootstrapView;

    closed spec fn view(&self) -> BootstrapView {
        BootstrapView { ssid: self.ssid@, credential: self.credential@, phase: self.phase@ }
    }
}

impl Bootstrap {
    /// A bootstrap that will join the network `ssid` with `credential`.
    pub fn new(ssid: String, credential: String) -> (bootstrap: Self)
        ensures
            bootstrap@ == BootstrapView::initial(ssid@, credential@),
    {
        Bootstrap { ssid, credential, phase: Phase::Idle }
    }

    /// Where the bootstrap stands.
    pub fn state(&self) -> (state: NetworkState)
        ensures
            state == self@.phase.state(),
    {
        match &self.phase {
            Phase::Idle => NetworkState::Idle,
            Phase::Scanning => NetworkState::Scanning,
            Phase::Configuring(_) => NetworkState::Configuring,
            Phase::Connecting(_) => NetworkState::Connecting,
            Phase::Verifying(_) => NetworkState::Verifying,
            Phase::Connected(_) => NetworkState::Connected,
            Phase::Failed(_) => NetworkState::Failed,
        }
    }

    /// The verified link once the bootstrap has succeeded, the error once
    /// it has failed, and `None` while it is under way.
    pub fn outcome(&self) -> (outcome: Option<Result<NetworkHandle, BootstrapError>>)
        ensures
            match outcome {
                Some(Ok(link)) => self@.outcome() == Some(
                    Ok::<NetworkHandleView, BootstrapError>(link@),
                ),
                Some(Err(error)) => self@.outcome() == Some(
                    Err::<NetworkHandleView, BootstrapError>(error),
                ),
                None => self@.outcome() is None,
            },
    {
        match &self.phase {
            Phase::Connected(link) => Some(Ok(link.clone())),
            Phase::Failed(error) => Some(Err(*error)),
            _ => None,
        }
    }

    /// Takes the driver's answer and returns the bootstrap in its next
    /// state together with what to ask of the driver next.
    pub fn step(self, event: BootstrapEvent) -> (next: (Bootstrap, BootstrapAction))
        ensures
            next.0@ == self@.step(event),
            next.1@ == self@.action(event),
    {
        let Bootstrap { ssid, credential, phase } = self;
        match phase {
            Phase::Idle => match event {
                BootstrapEvent::Begin => (
                    Bootstrap { ssid, credential, phase: Phase::Scanning },
                    BootstrapAction::Scan,
                ),
                _ => (Bootstrap { ssid, credential, phase: Phase::Idle }, BootstrapAction::Ignore),
            },
            Phase::Scanning => match event {
                BootstrapEvent::ScanCompleted(aps) => {
                    let config = NetworkConfig::plan(&ssid, &credential, &aps);
                    let request = config.clone();
                    (
                        Bootstrap { ssid, credential, phase: Phase::Configuring(config) },
                        BootstrapAction::ApplyConfig(request),
                    )
                },
                BootstrapEvent::ScanFailed => (
                    Bootstrap {
                        ssid,
                        credential,
                        phase: Phase::Failed(BootstrapError::ScanIncomplete),
                    },
                    BootstrapAction::Abort(BootstrapError::ScanIncomplete),
                ),
                _ => (
                    Bootstrap { ssid, credential, phase: Phase::Scanning },
                    BootstrapAction::Ignore,
                ),
            },
            Phase::Configuring(config) => match event {
                BootstrapEvent::ConfigApplied => (
                    Bootstrap { ssid, credential, phase: Phase::Connecting(config) },
                    BootstrapAction::Connect,
                ),
                BootstrapEvent::ConfigRejected => (
                    Bootstrap {
                        ssid,
                        credential,
                        phase: Phase::Failed(BootstrapError::ConfigRejected),
                    },
                    BootstrapAction::Abort(BootstrapError::ConfigRejected),
                ),
                _ => (
                    Bootstrap { ssid, credential, phase: Phase::Configuring(config) },
                    BootstrapAction::Ignore,
                ),
            },
            Phase::Connecting(config) => match event {
                BootstrapEvent::StatusReported(status) => match status.gateway() {
                    Some(gateway) => (
                        Bootstrap {
                            ssid,
                            credential,
                            phase: Phase::Verifying(NetworkHandle { config, gateway }),
                        },
                        BootstrapAction::Probe { target: gateway, count: PROBE_COUNT },
                    ),
                    None => (
                        Bootstrap {
                            ssid,
                            credential,
                            phase: Phase::Failed(BootstrapError::UnexpectedStatus),
                        },
                        BootstrapAction::Abort(BootstrapError::UnexpectedStatus),
                    ),
                },
                BootstrapEvent::ConnectFailed => (
                    Bootstrap {
                        ssid,
                        credential,
                        phase: Phase::Failed(BootstrapError::ConnectFailed),
                    },
                    BootstrapAction::Abort(BootstrapError::ConnectFailed),
                ),
                _ => (
                    Bootstrap { ssid, credential, phase: Phase::Connecting(config) },
                    BootstrapAction::Ignore,
                ),
            },
            Phase::Verifying(link) => match event {
                BootstrapEvent::ProbeCompleted(report) => {
                    if report.is_lossless() {
                        (
                            Bootstrap { ssid, credential, phase: Phase::Connected(link) },
                            BootstrapAction::Done,
                        )
                    } else {
                        (
                            Bootstrap {
                                ssid,
                                credential,
                                phase: Phase::Failed(BootstrapError::Unreachable),
                            },
                            BootstrapAction::Abort(BootstrapError::Unreachable),
                        )
                    }
                },
                BootstrapEvent::ProbeFailed => (
                    Bootstrap {
                        ssid,
                        credential,
                        phase: Phase::Failed(BootstrapError::Unreachable),
                    },
                    BootstrapAction::Abort(BootstrapError::Unreachable),
                ),
                _ => (
                    Bootstrap { ssid, credential, phase: Phase::Verifying(link) },
                    BootstrapAction::Ignore,
                ),
            },
            Phase::Connected(link) => (
                Bootstrap { ssid, credential, phase: Phase::Connected(link) },
                BootstrapAction::Ignore,
            ),
            Phase::Failed(error) => (
                Bootstrap { ssid, credential, phase: Phase::Failed(error) },
                BootstrapAction::Ignore,
            ),
        }
    }
}

/// Whether `event` reports a batch of probes that came back without loss.
pub open spec fn is_lossless_probe(event: BootstrapEvent) -> bool {
    event matches BootstrapEvent::ProbeCompleted(report) && report.lossless()
}

/// Whether entry `i` of `events` is a completed scan from which `config`
/// is planned for `ssid` and `credential`.
pub open spec fn is_scan_for(
    events: Seq<BootstrapEvent>,
    i: int,
    ssid: Seq<char>,
    credential: Seq<char>,
    config: NetworkConfigView,
) -> bool {
    &&& 0 <= i < events.len()
    &&& events[i] matches BootstrapEvent::ScanCompleted(aps)
    &&& config == planned_config(ssid, credential, aps@)
}

/// Whether entry `i` of `events` is a status that shows both roles fully
/// up with the gateway `gateway`.
pub open spec fn is_status_for(events: Seq<BootstrapEvent>, i: int, gateway: u32) -> bool {
    &&& 0 <= i < events.len()
    &&& events[i] matches BootstrapEvent::StatusReported(status)
    &&& gateway_of(status) == Some(gateway)
}

/// What the events seen so far must hold for the bootstrap to stand in
/// `phase`: each thing that the phase has learned was reported by one of
/// them.
pub open spec fn accounts_for(
    events: Seq<BootstrapEvent>,
    ssid: Seq<char>,
    credential: Seq<char>,
    phase: PhaseView,
) -> bool {
    match phase {
        PhaseView::Idle => true,
        PhaseView::Scanning => true,
        PhaseView::Configuring(config) => exists|i: int|
            is_scan_for(events, i, ssid, credential, config),
        PhaseView::Connecting(config) => exists|i: int|
            is_scan_for(events, i, ssid, credential, config),
        PhaseView::Verifying(link) => {
            &&& exists|i: int| is_scan_for(events, i, ssid, credential, link.config)
            &&& exists|j: int| is_status_for(events, j, link.gateway)
        },
        PhaseView::Connected(link) => {
            &&& exists|i: int| is_scan_for(events, i, ssid, credential, link.config)
            &&& exists|j: int| is_status_for(events, j, link.gateway)
            &&& exists|k: int| 0 <= k < events.len() && is_lossless_probe(#[trigger] events[k])
        },
        PhaseView::Failed(_) => true,
    }
}

/// The reachability gate. A bootstrap that waits for the probes succeeds
/// if and only if as many probes were received as were transmitted, and
/// fails as unreachable on any loss.
pub proof fn lemma_reachability_gate(bootstrap: BootstrapView, report: ReachabilityReport)
    requires
        bootstrap.phase is Verifying,
    ensures
        bootstrap.step(BootstrapEvent::ProbeCompleted(report)).outcome() is Some,
        bootstrap.step(BootstrapEvent::ProbeCompleted(report)).outcome().unwrap() is Ok
            <==> report.transmitted == report.received,
        report.transmitted == report.received ==> bootstrap.step(
            BootstrapEvent::ProbeCompleted(report),
        ).phase == PhaseView::Connected(bootstrap.phase->Verifying_0),
        report.transmitted != report.received ==> bootstrap.step(
            BootstrapEvent::ProbeCompleted(report),
        ).phase == PhaseView::Failed(BootstrapError::Unreachable),
{
}

/// An ended bootstrap stays ended. After success or failure every event is
/// ignored: the outcome stands and nothing more is asked of the driver.
pub proof fn lemma_ended_bootstrap_stays(bootstrap: BootstrapView, event: BootstrapEvent)
    requires
        bootstrap.phase.is_terminal(),
    ensures
        bootstrap.step(event) == bootstrap,
        bootstrap.action(event) == BootstrapActionView::Ignore,
{
}

/// Every step keeps the target's name and credential.
pub proof fn lemma_run_keeps_identity(bootstrap: BootstrapView, events: Seq<BootstrapEvent>)
    ensures
        bootstrap.run(events).ssid == bootstrap.ssid,
        bootstrap.run(events).credential == bootstrap.credential,
    decreases events.len(),
{
    if events.len() > 0 {
        lemma_run_keeps_identity(bootstrap, events.drop_last());
    }
}

/// What accounts for a phase still does after one more event.
proof fn lemma_account_outlives_event(
    events: Seq<BootstrapEvent>,
    ssid: Seq<char>,
    credential: Seq<char>,
    phase: PhaseView,
)
    requires
        events.len() > 0,
        accounts_for(events.drop_last(), ssid, credential, phase),
    ensures
        accounts_for(events, ssid, credential, phase),
{
    let before = events.drop_last();
    assert forall|i: int, config: NetworkConfigView|
        is_scan_for(before, i, ssid, credential, config) implies is_scan_for(
        events,
        i,
        ssid,
        credential,
        config,
    ) by {
        assert(before[i] == events[i]);
    }
    assert forall|j: int, gateway: u32| is_status_for(before, j, gateway) implies is_status_for(
        events,
        j,
        gateway,
    ) by {
        assert(before[j] == events[j]);
    }
    match phase {
        PhaseView::Configuring(config) => {
            let i = choose|i: int| is_scan_for(before, i, ssid, credential, config);
            assert(is_scan_for(events, i, ssid, credential, config));
        },
        PhaseView::Connecting(config) => {
            let i = choose|i: int| is_scan_for(before, i, ssid, credential, config);
            assert(is_scan_for(events, i, ssid, credential, config));
        },
        PhaseView::Verifying(link) => {
            let i = choose|i: int| is_scan_for(before, i, ssid, credential, link.config);
            assert(is_scan_for(events, i, ssid, credential, link.config));
            let j = choose|j: int| is_status_for(before, j, link.gateway);
            assert(is_status_for(events, j, link.gateway));
        },
        PhaseView::Connected(link) => {
            let i = choose|i: int| is_scan_for(before, i, ssid, credential, link.config);
            assert(is_scan_for(events, i, ssid, credential, link.config));
            let j = choose|j: int| is_status_for(before, j, link.gateway);
            assert(is_status_for(events, j, link.gateway));
            let k = choose|k: int| 0 <= k < before.len() && is_lossless_probe(#[trigger] before[k]);
            assert(before[k] == events[k]);
            assert(is_lossless_probe(events[k]));
        },
        _ => {},
    }
}

/// Nothing is taken on trust. Whatever events arrive, in whatever order,
/// the phase that a fresh bootstrap reaches holds only what the driver
/// reported: the configuration planned from a completed scan, the gateway
/// of a status with both roles fully up, and, once connected, a batch of
/// probes without loss.
pub proof fn lemma_phase_is_accounted_for(
    ssid: Seq<char>,
    credential: Seq<char>,
    events: Seq<BootstrapEvent>,
)
    ensures
        accounts_for(
            events,
            ssid,
            credential,
            BootstrapView::initial(ssid, credential).run(events).phase,
        ),
    decreases events.len(),
{
    let fresh = BootstrapView::initial(ssid, credential);
    if events.len() > 0 {
        let before = events.drop_last();
        let event = events.last();
        let last = events.len() - 1;
        let prior = fresh.run(before);
        lemma_phase_is_accounted_for(ssid, credential, before);
        lemma_run_keeps_identity(fresh, before);
        lemma_account_outlives_event(events, ssid, credential, prior.phase);
        let phase = prior.step(event).phase;
        if prior.expects(event) {
            assert(events[last] == event);
            match phase {
                PhaseView::Configuring(config) => {
                    assert(is_scan_for(events, last, ssid, credential, config));
                },
                PhaseView::Connecting(config) => {
                    assert(prior.phase == PhaseView::Configuring(config));
                },
                PhaseView::Verifying(link) => {
                    assert(prior.phase == PhaseView::Connecting(link.config));
                    assert(is_status_for(events, last, link.gateway));
                },
                PhaseView::Connected(link) => {
                    assert(prior.phase == PhaseView::Verifying(link));
                    assert(is_lossless_probe(events[last]));
                },
                _ => {},
            }
        } else {
            assert(phase == prior.phase);
        }
    }
}

/// Success needs a lossless probe. A fresh bootstrap that has reached
/// `Connected` was handed a batch of probes of which none was lost.
pub proof fn lemma_success_needs_lossless_probe(
    ssid: Seq<char>,
    credential: Seq<char>,
    events: Seq<BootstrapEvent>,
)
    requires
        BootstrapView::initial(ssid, credential).run(events).phase is Connected,
    ensures
        exists|k: int| 0 <= k < events.len() && is_lossless_probe(#[trigger] events[k]),
{
    lemma_phase_is_accounted_for(ssid, credential, events);
}

} // verus!
