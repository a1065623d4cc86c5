//! Management of the system's DNS configuration through one of several
//! mutually exclusive system facilities.
//!
//! The facilities themselves are out of reach of this module. It decides
//! which of them to try and in what order, what to ask of the one that is
//! bound, and what an outcome means; the caller makes each [`BackendCall`]
//! and reports how it went.

pub mod laws;

use crate::net::IpAddr;
use vstd::prelude::*;
use vstd::slice::slice_to_vec;
use vstd::string::StringExecFns;

verus! {

/// What a system facility reported when a call to it failed.
#[derive(Clone, Debug, PartialEq, Eq)]
pub struct BackendError {
    /// The facility's own account of the failure.
    pub message: String,
}

/// Errors of the DNS manager.
#[derive(Clone, Debug, PartialEq, Eq)]
pub enum Error {
    /// No suitable DNS monitor implementation detected.
    NoDnsMonitor,
    /// The resolvconf program failed.
    Resolvconf(BackendError),
    /// Rewriting the resolver configuration file failed.
    StaticResolvConf(BackendError),
    /// systemd-resolved failed.
    SystemdResolved(BackendError),
    /// NetworkManager failed.
    NetworkManager(BackendError),
}

/// One of the system facilities through which DNS can be managed.
#[derive(Clone, Copy, Debug, PartialEq, Eq, Hash, Structural)]
pub enum DnsMonitorHolder {
    Resolvconf,
    StaticResolvConf,
    SystemdResolved,
    NetworkManager,
}

/// Whether two strings hold the same characters.
fn same_text(left: &str, right: &str) -> (res: bool)
    ensures
        res == (left@ == right@),
{
    left.to_owned() == right.to_owned()
}

impl DnsMonitorHolder {
    /// The facility that the name of a DNS module selects, if the name is one
    /// of the four known ones.
    pub open spec fn spec_from_module_name(name: Seq<char>) -> Option<DnsMonitorHolder> {
        if name == "static-file"@ {
            Some(DnsMonitorHolder::StaticResolvConf)
        } else if name == "resolvconf"@ {
            Some(DnsMonitorHolder::Resolvconf)
        } else if name == "systemd"@ {
            Some(DnsMonitorHolder::SystemdResolved)
        } else if name == "network-manager"@ {
            Some(DnsMonitorHolder::NetworkManager)
        } else {
            None
        }
    }

    /// The facility that the name of a DNS module selects, if the name is one
    /// of the four known ones.
    pub fn from_module_name(name: &str) -> (res: Option<DnsMonitorHolder>)
        ensures
            res == Self::spec_from_module_name(name@),
    {
        if same_text(name, "static-file") {
            Some(DnsMonitorHolder::StaticResolvConf)
        } else if same_text(name, "resolvconf") {
            Some(DnsMonitorHolder::Resolvconf)
        } else if same_text(name, "systemd") {
            Some(DnsMonitorHolder::SystemdResolved)
        } else if same_text(name, "network-manager") {
            Some(DnsMonitorHolder::NetworkManager)
        } else {
            None
        }
    }

    /// The rank of the facility in automatic detection: the most capable
    /// service has rank 0, the most portable fallback the highest rank.
    pub open spec fn rank(self) -> int {
        match self {
            DnsMonitorHolder::SystemdResolved => 0,
            DnsMonitorHolder::NetworkManager => 1,
            DnsMonitorHolder::Resolvconf => 2,
            DnsMonitorHolder::StaticResolvConf => 3,
        }
    }

    /// The order in which automatic detection tries the facilities.
    pub open spec fn detection_order() -> Seq<DnsMonitorHolder> {
        seq![
            DnsMonitorHolder::SystemdResolved,
            DnsMonitorHolder::NetworkManager,
            DnsMonitorHolder::Resolvconf,
            DnsMonitorHolder::StaticResolvConf,
        ]
    }

    /// The facility that automatic detection tries after this one, if any.
    pub open spec fn spec_successor(self) -> Option<DnsMonitorHolder> {
        if self.rank() + 1 < Self::detection_order().len() {
            Some(Self::detection_order()[self.rank() + 1])
        } else {
            None
        }
    }

    /// The facility that automatic detection tries after this one, if any.
    pub fn successor(&self) -> (res: Option<DnsMonitorHolder>)
        ensures
            res == self.spec_successor(),
    {
        match self {
            DnsMonitorHolder::SystemdResolved => Some(DnsMonitorHolder::NetworkManager),
            DnsMonitorHolder::NetworkManager => Some(DnsMonitorHolder::Resolvconf),
            DnsMonitorHolder::Resolvconf => Some(DnsMonitorHolder::StaticResolvConf),
            DnsMonitorHolder::StaticResolvConf => None,
        }
    }

    /// The error of the manager that stands for a failure of this facility.
    pub open spec fn spec_error(self, error: BackendError) -> Error {
        match self {
            DnsMonitorHolder::Resolvconf => Error::Resolvconf(error),
            DnsMonitorHolder::StaticResolvConf => Error::StaticResolvConf(error),
            DnsMonitorHolder::SystemdResolved => Error::SystemdResolved(error),
            DnsMonitorHolder::NetworkManager => Error::NetworkManager(error),
        }
    }

    /// The error of the manager that stands for a failure of this facility.
    pub fn error(&self, error: BackendError) -> (res: Error)
        ensures
            res == self.spec_error(error),
    {
        match self {
            DnsMonitorHolder::Resolvconf => Error::Resolvconf(error),
            DnsMonitorHolder::StaticResolvConf => Error::StaticResolvConf(error),
            DnsMonitorHolder::SystemdResolved => Error::SystemdResolved(error),
            DnsMonitorHolder::NetworkManager => Error::NetworkManager(error),
        }
    }

    /// The name of the facility as it is shown to people.
    pub open spec fn spec_name(self) -> Seq<char> {
        match self {
            DnsMonitorHolder::Resolvconf => "resolvconf"@,
            DnsMonitorHolder::StaticResolvConf => "/etc/resolv.conf"@,
            DnsMonitorHolder::SystemdResolved => "systemd-resolved"@,
            DnsMonitorHolder::NetworkManager => "network manager"@,
        }
    }

    /// The name of the facility as it is shown to people.
    pub fn name(&self) -> (res: &'static str)
        ensures
            res@ == self.spec_name(),
    {
        match self {
            DnsMonitorHolder::Resolvconf => "resolvconf",
            DnsMonitorHolder::StaticResolvConf => "/etc/resolv.conf",
            DnsMonitorHolder::SystemdResolved => "systemd-resolved",
            DnsMonitorHolder::NetworkManager => "network manager",
        }
    }
}

/// A detection in progress.
#[derive(Clone, Copy, Debug, PartialEq, Eq, Structural)]
pub struct Detection {
    /// The facility whose probe is awaited.
    pub candidate: DnsMonitorHolder,
    /// Whether the candidate was selected by name, so that no other facility
    /// is tried when it fails.
    pub exclusive: bool,
}

/// What a probe's outcome means for a detection.
#[derive(Clone, Debug, PartialEq, Eq)]
pub enum DetectionStep {
    /// The candidate is available and is now bound.
    Bound(DnsMonitorHolder),
    /// The candidate is not available; the detection goes on as given.
    Retry(Detection),
    /// Nothing is left to try.
    Failed(Error),
}

impl DnsMonitorHolder {
    /// The detection that tries every facility, the most capable first.
    pub open spec fn spec_with_detected_dns_manager() -> Detection {
        Detection { candidate: Self::detection_order()[0], exclusive: false }
    }

    /// The detection that `dns_module` asks for: of the named facility alone
    /// where the name is known, of every facility otherwise.
    pub open spec fn spec_new(dns_module: Option<Seq<char>>) -> Detection {
        match dns_module {
            Some(name) => match Self::spec_from_module_name(name) {
                Some(candidate) => Detection { candidate, exclusive: true },
                None => Self::spec_with_detected_dns_manager(),
            },
            None => Self::spec_with_detected_dns_manager(),
        }
    }

    /// Starts the detection that `dns_module` asks for. A name that is not
    /// known is treated as no name at all.
    pub fn new(dns_module: Option<&str>) -> (res: Detection)
        ensures
            res == Self::spec_new(
                match dns_module {
                    Some(name) => Some(name@),
                    None => None,
                },
            ),
    {
        let selected = match dns_module {
            Some(name) => Self::from_module_name(name),
            None => None,
        };
        match selected {
            Some(candidate) => Detection { candidate, exclusive: true },
            None => Self::with_detected_dns_manager(),
        }
    }

    /// Starts the detection that tries every facility in order of preference.
    pub fn with_detected_dns_manager() -> (res: Detection)
        ensures
            res == Self::spec_with_detected_dns_manager(),
    {
        Detection { candidate: DnsMonitorHolder::SystemdResolved, exclusive: false }
    }
}

impl Detection {
    /// The facilities that the detection will try, in order, as long as
    /// each one before fails.
    pub open spec fn candidates(self) -> Seq<DnsMonitorHolder> {
        if self.exclusive {
            seq![self.candidate]
        } else {
            DnsMonitorHolder::detection_order().skip(self.candidate.rank())
        }
    }

    /// The facility to try when the candidate fails, if any: none after a
    /// candidate that was selected by name.
    pub open spec fn next_candidate(self) -> Option<DnsMonitorHolder> {
        if self.exclusive {
            None
        } else {
            self.candidate.spec_successor()
        }
    }

    /// What the outcome of the candidate's probe leads to.
    pub open spec fn spec_resolve(self, outcome: Result<(), BackendError>) -> DetectionStep {
        match outcome {
            Ok(()) => DetectionStep::Bound(self.candidate),
            Err(_) => match self.next_candidate() {
                Some(candidate) => DetectionStep::Retry(Detection { candidate, exclusive: false }),
                None => DetectionStep::Failed(Error::NoDnsMonitor),
            },
        }
    }

    /// Takes note of the outcome of the candidate's probe. What a failed
    /// probe reported is not passed on: when nothing is left to try, the
    /// failures are summed up as [`Error::NoDnsMonitor`].
    pub fn resolve(self, outcome: Result<(), BackendError>) -> (res: DetectionStep)
        ensures
            res == self.spec_resolve(outcome),
    {
        match outcome {
            Ok(()) => DetectionStep::Bound(self.candidate),
            Err(_) => {
                let next = if self.exclusive {
                    None
                } else {
                    self.candidate.successor()
                };
                match next {
                    Some(candidate) => DetectionStep::Retry(
                        Detection { candidate, exclusive: false },
                    ),
                    None => DetectionStep::Failed(Error::NoDnsMonitor),
                }
            },
        }
    }
}

/// A call that the caller is to make to a system facility.
#[derive(Clone, Debug, PartialEq, Eq)]
pub enum BackendCall {
    /// Try to bind the facility.
    Probe(DnsMonitorHolder),
    /// Have the facility use `servers` for name resolution. The interface is
    /// given to the facilities that configure DNS per interface.
    SetDns { backend: DnsMonitorHolder, interface: Option<String>, servers: Vec<IpAddr> },
    /// Have the facility restore what it changed, and let go of it.
    Reset(DnsMonitorHolder),
}

/// A [`BackendCall`] as a mathematical value.
pub enum BackendCallView {
    Probe(DnsMonitorHolder),
    SetDns { backend: DnsMonitorHolder, interface: Option<Seq<char>>, servers: Seq<IpAddr> },
    Reset(DnsMonitorHolder),
}

impl View for BackendCall {
    type V = BackendCallView;

    open spec fn view(&self) -> BackendCallView {
        match *self {
            BackendCall::Probe(backend) => BackendCallView::Probe(backend),
            BackendCall::SetDns { backend, interface, servers } => BackendCallView::SetDns {
                backend,
                interface: match interface {
                    Some(interface) => Some(interface@),
                    None => None,
                },
                servers: servers@,
            },
            BackendCall::Reset(backend) => BackendCallView::Reset(backend),
        }
    }
}

impl DnsMonitorHolder {
    /// Whether the facility configures DNS per network interface.
    pub open spec fn uses_interface(self) -> bool {
        self == DnsMonitorHolder::Resolvconf || self == DnsMonitorHolder::SystemdResolved
    }

    /// The call that has this facility use `servers` on `interface`.
    pub open spec fn spec_set(self, interface: Seq<char>, servers: Seq<IpAddr>) -> BackendCallView {
        BackendCallView::SetDns {
            backend: self,
            interface: if self.uses_interface() {
                Some(interface)
            } else {
                None
            },
            servers,
        }
    }

    /// Builds the call that has this facility use `servers` on `interface`.
    pub fn set(&self, interface: &str, servers: &[IpAddr]) -> (res: BackendCall)
        ensures
            res@ == self.spec_set(interface@, servers@),
    {
        let servers = slice_to_vec(servers);
        match self {
            DnsMonitorHolder::Resolvconf => BackendCall::SetDns {
                backend: DnsMonitorHolder::Resolvconf,
                interface: Some(String::from_str(interface)),
                servers,
            },
            DnsMonitorHolder::StaticResolvConf => BackendCall::SetDns {
                backend: DnsMonitorHolder::StaticResolvConf,
                interface: None,
                servers,
            },
            DnsMonitorHolder::SystemdResolved => BackendCall::SetDns {
                backend: DnsMonitorHolder::SystemdResolved,
                interface: Some(String::from_str(interface)),
                servers,
            },
            DnsMonitorHolder::NetworkManager => BackendCall::SetDns {
                backend: DnsMonitorHolder::NetworkManager,
                interface: None,
                servers,
            },
        }
    }

    /// Builds the call that has this facility restore what it changed.
    pub fn reset(&self) -> (res: BackendCall)
        ensures
            res@ == BackendCallView::Reset(*self),
    {
        BackendCall::Reset(*self)
    }
}

/// What the manager wants next.
#[derive(Debug, PartialEq, Eq)]
pub enum DnsStep {
    /// The caller is to make the call and report its outcome with
    /// [`DnsMonitor::resume`].
    Call(BackendCall),
    /// The operation is over, with the given result.
    Done(Result<(), Error>),
}

/// A [`DnsStep`] as a mathematical value.
pub enum DnsStepView {
    Call(BackendCallView),
    Done(Result<(), Error>),
}

impl View for DnsStep {
    type V = DnsStepView;

    open spec fn view(&self) -> DnsStepView {
        match *self {
            DnsStep::Call(call) => DnsStepView::Call(call@),
            DnsStep::Done(result) => DnsStepView::Done(result),
        }
    }
}

/// What a `set` was asked to configure.
#[derive(Clone, Debug, PartialEq, Eq)]
struct DnsConfig {
    interface: String,
    servers: Vec<IpAddr>,
}

/// What a `set` was asked to configure, as a mathematical value.
pub struct DnsConfigView {
    pub interface: Seq<char>,
    pub servers: Seq<IpAddr>,
}

impl View for DnsConfig {
    type V = DnsConfigView;

    closed spec fn view(&self) -> DnsConfigView {
        DnsConfigView { interface: self.interface@, servers: self.servers@ }
    }
}

/// Where the manager stands: at rest, or waiting for the outcome of a call.
#[derive(Clone, Debug, PartialEq, Eq)]
enum Phase {
    Idle(Option<DnsMonitorHolder>),
    Resetting(DnsMonitorHolder),
    Reverting(DnsMonitorHolder, Detection, DnsConfig),
    Probing(Detection, DnsConfig),
    Applying(DnsMonitorHolder),
}

/// The state of a [`DnsMonitor`] as a mathematical value.
pub enum DnsMonitorView {
    /// No operation is in flight. The facility given, if any, is bound and
    /// has the DNS configuration in its hands.
    Idle(Option<DnsMonitorHolder>),
    /// A `reset` waits for the facility to restore what it changed.
    Resetting(DnsMonitorHolder),
    /// A `set` waits for the facility bound before to restore what it
    /// changed; the detection and the configuration come after.
    Reverting(DnsMonitorHolder, Detection, DnsConfigView),
    /// A `set` waits for the probe of the detection's candidate.
    Probing(Detection, DnsConfigView),
    /// A `set` waits for the freshly bound facility to take the
    /// configuration.
    Applying(DnsMonitorHolder),
}

impl DnsMonitorView {
    /// The facility that is bound, if any. While an operation is in flight
    /// none is.
    pub open spec fn bound(self) -> Option<DnsMonitorHolder> {
        match self {
            DnsMonitorView::Idle(bound) => bound,
            _ => None,
        }
    }

    /// Whether an operation waits for the outcome of a call.
    pub open spec fn in_flight(self) -> bool {
        !(self is Idle)
    }

    /// The state and the step after a `set` has been started with the given
    /// detection and configuration: what is bound is let go first.
    pub open spec fn set(self, detection: Detection, config: DnsConfigView) -> (
        DnsMonitorView,
        DnsStepView,
    ) {
        match self.bound() {
            Some(previous) => (
                DnsMonitorView::Reverting(previous, detection, config),
                DnsStepView::Call(BackendCallView::Reset(previous)),
            ),
            None => (
                DnsMonitorView::Probing(detection, config),
                DnsStepView::Call(BackendCallView::Probe(detection.candidate)),
            ),
        }
    }

    /// The state and the step after a `reset` has been started.
    pub open spec fn reset(self) -> (DnsMonitorView, DnsStepView) {
        match self.bound() {
            Some(previous) => (
                DnsMonitorView::Resetting(previous),
                DnsStepView::Call(BackendCallView::Reset(previous)),
            ),
            None => (DnsMonitorView::Idle(None), DnsStepView::Done(Ok(()))),
        }
    }

    /// The state and the step after the outcome of the call in flight has
    /// been reported.
    pub open spec fn resume(self, outcome: Result<(), BackendError>) -> (
        DnsMonitorView,
        DnsStepView,
    ) {
        match self {
            DnsMonitorView::Idle(bound) => (self, DnsStepView::Done(Ok(()))),
            DnsMonitorView::Resetting(previous) => (
                DnsMonitorView::Idle(None),
                DnsStepView::Done(
                    match outcome {
                        Ok(()) => Ok(()),
                        Err(error) => Err(previous.spec_error(error)),
                    },
                ),
            ),
            DnsMonitorView::Reverting(previous, detection, config) => match outcome {
                Ok(()) => (
                    DnsMonitorView::Probing(detection, config),
                    DnsStepView::Call(BackendCallView::Probe(detection.candidate)),
                ),
                Err(error) => (
                    DnsMonitorView::Idle(None),
                    DnsStepView::Done(Err(previous.spec_error(error))),
                ),
            },
            DnsMonitorView::Probing(detection, config) => match detection.spec_resolve(outcome) {
                DetectionStep::Bound(backend) => (
                    DnsMonitorView::Applying(backend),
                    DnsStepView::Call(backend.spec_set(config.interface, config.servers)),
                ),
                DetectionStep::Retry(next) => (
                    DnsMonitorView::Probing(next, config),
                    DnsStepView::Call(BackendCallView::Probe(next.candidate)),
                ),
                DetectionStep::Failed(error) => (
                    DnsMonitorView::Idle(None),
                    DnsStepView::Done(Err(error)),
                ),
            },
            DnsMonitorView::Applying(backend) => match outcome {
                Ok(()) => (DnsMonitorView::Idle(Some(backend)), DnsStepView::Done(Ok(()))),
                Err(error) => (
                    DnsMonitorView::Idle(None),
                    DnsStepView::Done(Err(backend.spec_error(error))),
                ),
            },
        }
    }
}

/// The manager of the system's DNS configuration. It has at most one
/// facility bound at a time, and binds a new one only after the one before
/// has been told to restore what it changed.
#[derive(Clone, Debug, PartialEq, Eq)]
pub struct DnsMonitor {
    phase: Phase,
}

impl View for DnsMonitor {
    type V = DnsMonitorView;

    closed spec fn view(&self) -> DnsMonitorView {
        match self.phase {
            Phase::Idle(bound) => DnsMonitorView::Idle(bound),
            Phase::Resetting(previous) => DnsMonitorView::Resetting(previous),
            Phase::Reverting(previous, detection, config) => DnsMonitorView::Reverting(
                previous,
                detection,
                config@,
            ),
            Phase::Probing(detection, config) => DnsMonitorView::Probing(detection, config@),
            Phase::Applying(backend) => DnsMonitorView::Applying(backend),
        }
    }
}

impl DnsMonitor {
    /// A manager with nothing bound.
    pub fn new() -> (res: Result<DnsMonitor, Error>)
        ensures
            res matches Ok(monitor) && monitor@ == DnsMonitorView::Idle(None),
    {
        Ok(DnsMonitor { phase: Phase::Idle(None) })
    }

    /// The facility that is bound, if any.
    pub fn bound(&self) -> (res: Option<DnsMonitorHolder>)
        ensures
            res == self@.bound(),
    {
        match &self.phase {
            Phase::Idle(bound) => *bound,
            _ => None,
        }
    }

    /// Whether an operation waits for the outcome of a call.
    pub fn in_flight(&self) -> (res: bool)
        ensures
            res == self@.in_flight(),
    {
        match &self.phase {
            Phase::Idle(_) => false,
            _ => true,
        }
    }

    /// Starts to configure `servers` as the DNS servers of `interface`.
    ///
    /// Whatever is bound is told to restore what it changed and is let go.
    /// Then a facility is detected anew, as `dns_module` asks, and the first
    /// one that can be bound is given the configuration. The facility stays
    /// bound only if every call succeeds. An operation that was in flight is
    /// forgotten.
    pub fn set(&mut self, dns_module: Option<&str>, interface: &str, servers: &[IpAddr]) -> (res:
        DnsStep)
        ensures
            (final(self)@, res@) == old(self)@.set(
                DnsMonitorHolder::spec_new(
                    match dns_module {
                        Some(name) => Some(name@),
                        None => None,
                    },
                ),
                DnsConfigView { interface: interface@, servers: servers@ },
            ),
    {
        let detection = DnsMonitorHolder::new(dns_module);
        let config = DnsConfig {
            interface: String::from_str(interface),
            servers: slice_to_vec(servers),
        };
        match self.bound() {
            Some(previous) => {
                self.phase = Phase::Reverting(previous, detection, config);
                DnsStep::Call(previous.reset())
            },
            None => {
                self.phase = Phase::Probing(detection, config);
                DnsStep::Call(BackendCall::Probe(detection.candidate))
            },
        }
    }

    /// Starts to give the DNS configuration back to the system. What is
    /// bound is told to restore what it changed and is let go, however that
    /// call turns out. With nothing bound there is nothing to do.
    pub fn reset(&mut self) -> (res: DnsStep)
        ensures
            (final(self)@, res@) == old(self)@.reset(),
            final(self)@.bound() is None,
            old(self)@.bound() is None ==> res@ == DnsStepView::Done(Ok(())),
    {
        match self.bound() {
            Some(previous) => {
                self.phase = Phase::Resetting(previous);
                DnsStep::Call(previous.reset())
            },
            None => {
                self.phase = Phase::Idle(None);
                DnsStep::Done(Ok(()))
            },
        }
    }

    /// Takes note of the outcome of the call that the last step asked for.
    /// With no call in flight the outcome is dropped.
    pub fn resume(&mut self, outcome: Result<(), BackendError>) -> (res: DnsStep)
        ensures
            (final(self)@, res@) == old(self)@.resume(outcome),
    {
        let mut phase = Phase::Idle(None);
        core::mem::swap(&mut self.phase, &mut phase);
        match phase {
            Phase::Idle(bound) => {
                self.phase = Phase::Idle(bound);
                DnsStep::Done(Ok(()))
            },
            Phase::Resetting(previous) => match outcome {
                Ok(()) => DnsStep::Done(Ok(())),
                Err(error) => DnsStep::Done(Err(previous.error(error))),
            },
            Phase::Reverting(previous, detection, config) => match outcome {
                Ok(()) => {
                    self.phase = Phase::Probing(detection, config);
                    DnsStep::Call(BackendCall::Probe(detection.candidate))
                },
                Err(error) => DnsStep::Done(Err(previous.error(error))),
            },
            Phase::Probing(detection, config) => match detection.resolve(outcome) {
                DetectionStep::Bound(backend) => {
                    self.phase = Phase::Applying(backend);
                    DnsStep::Call(backend.set(config.interface.as_str(), config.servers.as_slice()))
                },
                DetectionStep::Retry(next) => {
                    self.phase = Phase::Probing(next, config);
                    DnsStep::Call(BackendCall::Probe(next.candidate))
                },
                DetectionStep::Failed(error) => DnsStep::Done(Err(error)),
            },
            Phase::Applying(backend) => match outcome {
                Ok(()) => {
                    self.phase = Phase::Idle(Some(backend));
                    DnsStep::Done(Ok(()))
                },
                Err(error) => DnsStep::Done(Err(backend.error(error))),
            },
        }
    }
}

} // verus!
