//! Selection of the system's DNS settings manager among three facilities,
//! and the calls to make to the one that was found.
//!
//! As in [`crate::dns`], the caller makes each call and reports its outcome.

use crate::dns::BackendError;
use crate::net::IpAddr;
use vstd::prelude::*;
use vstd::string::StringExecFns;

verus! {

/// Errors of the DNS settings manager.
#[derive(Clone, Debug, PartialEq, Eq)]
pub enum Error {
    /// No DNS settings manager detected.
    NoDnsSettingsManager,
    /// The resolvconf program failed.
    Resolvconf(BackendError),
    /// Rewriting the resolver configuration file failed.
    StaticResolvConf(BackendError),
    /// systemd-resolved failed.
    SystemdResolved(BackendError),
}

/// One of the facilities through which the DNS settings can be managed.
#[derive(Clone, Copy, Debug, PartialEq, Eq, Hash, Structural)]
pub enum DnsSettings {
    Resolvconf,
    StaticResolvConf,
    SystemdResolved,
}

/// A call that the caller is to make to a facility.
#[derive(Clone, Debug, PartialEq, Eq)]
pub enum SettingsCall {
    /// Try to bind the facility.
    Probe(DnsSettings),
    /// Have the facility use `servers` for name resolution. The interface is
    /// given to the facilities that configure DNS per interface.
    SetDns { manager: DnsSettings, interface: Option<String>, servers: Vec<IpAddr> },
    /// Have the facility restore what it changed.
    Reset(DnsSettings),
}

/// A [`SettingsCall`] as a mathematical value.
pub enum SettingsCallView {
    Probe(DnsSettings),
    SetDns { manager: DnsSettings, interface: Option<Seq<char>>, servers: Seq<IpAddr> },
    Reset(DnsSettings),
}

impl View for SettingsCall {
    type V = SettingsCallView;

    open spec fn view(&self) -> SettingsCallView {
        match *self {
            SettingsCall::Probe(manager) => SettingsCallView::Probe(manager),
            SettingsCall::SetDns { manager, interface, servers } => SettingsCallView::SetDns {
                manager,
                interface: match interface {
                    Some(interface) => Some(interface@),
                    None => None,
                },
                servers: servers@,
            },
            SettingsCall::Reset(manager) => SettingsCallView::Reset(manager),
        }
    }
}

/// A detection in progress: the probe of `candidate` is awaited.
#[derive(Clone, Copy, Debug, PartialEq, Eq, Structural)]
pub struct Detection {
    pub candidate: DnsSettings,
}

/// What a probe's outcome means for a detection.
#[derive(Clone, Debug, PartialEq, Eq)]
pub enum DetectionStep {
    /// The candidate is available and is the manager from now on.
    Bound(DnsSettings),
    /// The candidate is not available; the detection goes on as given.
    Retry(Detection),
    /// Nothing is left to try.
    Failed(Error),
}

impl DnsSettings {
    /// The order in which detection tries the facilities.
    pub open spec fn detection_order() -> Seq<DnsSettings> {
        seq![DnsSettings::SystemdResolved, DnsSettings::Resolvconf, DnsSettings::StaticResolvConf]
    }

    /// The place of the facility in the order of detection.
    pub open spec fn rank(self) -> int {
        match self {
            DnsSettings::SystemdResolved => 0,
            DnsSettings::Resolvconf => 1,
            DnsSettings::StaticResolvConf => 2,
        }
    }

    /// The facility that detection tries after this one, if any.
    pub open spec fn spec_successor(self) -> Option<DnsSettings> {
        if self.rank() + 1 < Self::detection_order().len() {
            Some(Self::detection_order()[self.rank() + 1])
        } else {
            None
        }
    }

    /// The facility that detection tries after this one, if any.
    pub fn successor(&self) -> (res: Option<DnsSettings>)
        ensures
            res == self.spec_successor(),
    {
        match self {
            DnsSettings::SystemdResolved => Some(DnsSettings::Resolvconf),
            DnsSettings::Resolvconf => Some(DnsSettings::StaticResolvConf),
            DnsSettings::StaticResolvConf => None,
        }
    }

    /// Starts the detection of a manager with the most capable facility.
    pub fn new() -> (res: Detection)
        ensures
            res.candidate == Self::detection_order()[0],
    {
        Detection { candidate: DnsSettings::SystemdResolved }
    }

    /// Whether the facility configures DNS per network interface.
    pub open spec fn uses_interface(self) -> bool {
        self != DnsSettings::StaticResolvConf
    }

    /// Builds the call that has this facility use `servers` on `interface`.
    pub fn set_dns(&self, interface: &str, servers: Vec<IpAddr>) -> (res: SettingsCall)
        ensures
            res@ == (SettingsCallView::SetDns {
                manager: *self,
                interface: if self.uses_interface() {
                    Some(interface@)
                } else {
                    None
                },
                servers: servers@,
            }),
    {
        match self {
            DnsSettings::Resolvconf => SettingsCall::SetDns {
                manager: DnsSettings::Resolvconf,
                interface: Some(String::from_str(interface)),
                servers,
            },
            DnsSettings::StaticResolvConf => SettingsCall::SetDns {
                manager: DnsSettings::StaticResolvConf,
                interface: None,
                servers,
            },
            DnsSettings::SystemdResolved => SettingsCall::SetDns {
                manager: DnsSettings::SystemdResolved,
                interface: Some(String::from_str(interface)),
                servers,
            },
        }
    }

    /// Builds the call that has this facility restore what it changed.
    pub fn reset(&self) -> (res: SettingsCall)
        ensures
            res@ == SettingsCallView::Reset(*self),
    {
        SettingsCall::Reset(*self)
    }

    /// The error of the manager that stands for a failure of this facility.
    pub open spec fn spec_error(self, error: BackendError) -> Error {
        match self {
            DnsSettings::Resolvconf => Error::Resolvconf(error),
            DnsSettings::StaticResolvConf => Error::StaticResolvConf(error),
            DnsSettings::SystemdResolved => Error::SystemdResolved(error),
        }
    }

    /// The error of the manager that stands for a failure of this facility.
    pub fn error(&self, error: BackendError) -> (res: Error)
        ensures
            res == self.spec_error(error),
    {
        match self {
            DnsSettings::Resolvconf => Error::Resolvconf(error),
            DnsSettings::StaticResolvConf => Error::StaticResolvConf(error),
            DnsSettings::SystemdResolved => Error::SystemdResolved(error),
        }
    }

    /// The result of `set_dns` or `reset`, given how the call to this
    /// facility went.
    pub fn completed(&self, outcome: Result<(), BackendError>) -> (res: Result<(), Error>)
        ensures
            res == match outcome {
                Ok(()) => Ok::<(), Error>(()),
                Err(error) => Err::<(), Error>(self.spec_error(error)),
            },
    {
        match outcome {
            Ok(()) => Ok(()),
            Err(error) => Err(self.error(error)),
        }
    }
}

impl Detection {
    /// What the outcome of the candidate's probe leads to.
    pub open spec fn spec_resolve(self, outcome: Result<(), BackendError>) -> DetectionStep {
        match outcome {
            Ok(()) => DetectionStep::Bound(self.candidate),
            Err(_) => match self.candidate.spec_successor() {
                Some(candidate) => DetectionStep::Retry(Detection { candidate }),
                None => DetectionStep::Failed(Error::NoDnsSettingsManager),
            },
        }
    }

    /// Takes note of the outcome of the candidate's probe. When the last
    /// candidate fails, the failures are summed up as
    /// [`Error::NoDnsSettingsManager`].
    pub fn resolve(self, outcome: Result<(), BackendError>) -> (res: DetectionStep)
        ensures
            res == self.spec_resolve(outcome),
    {
        match outcome {
            Ok(()) => DetectionStep::Bound(self.candidate),
            Err(_) => match self.candidate.successor() {
                Some(candidate) => DetectionStep::Retry(Detection { candidate }),
                None => DetectionStep::Failed(Error::NoDnsSettingsManager),
            },
        }
    }

    /// The end of the detection when its probes have the given outcomes in
    /// order, if they suffice to end it.
    pub open spec fn detected(self, outcomes: Seq<Result<(), BackendError>>) -> Option<
        Result<DnsSettings, Error>,
    >
        decreases outcomes.len(),
    {
        if outcomes.len() == 0 {
            None
        } else {
            match self.spec_resolve(outcomes[0]) {
                DetectionStep::Bound(manager) => Some(Ok(manager)),
                DetectionStep::Retry(next) => next.detected(outcomes.skip(1)),
                DetectionStep::Failed(error) => Some(Err(error)),
            }
        }
    }

    /// A detection finds the first facility, in the order of detection from
    /// its candidate on, whose probe succeeds; it fails when the probes of
    /// all of them have failed.
    pub proof fn detects_first_available(self, outcomes: Seq<Result<(), BackendError>>)
        ensures
            match self.detected(outcomes) {
                Some(Ok(manager)) => {
                    let k = manager.rank() - self.candidate.rank();
                    &&& 0 <= k < outcomes.len()
                    &&& outcomes[k] is Ok
                    &&& forall|j: int| 0 <= j < k ==> (#[trigger] outcomes[j]) is Err
                },
                Some(Err(error)) => {
                    let tried = DnsSettings::detection_order().len() - self.candidate.rank();
                    &&& error == Error::NoDnsSettingsManager
                    &&& tried <= outcomes.len()
                    &&& forall|j: int| 0 <= j < tried ==> (#[trigger] outcomes[j]) is Err
                },
                None => {
                    &&& outcomes.len() < DnsSettings::detection_order().len()
                        - self.candidate.rank()
                    &&& forall|j: int| 0 <= j < outcomes.len() ==> (#[trigger] outcomes[j]) is Err
                },
            },
        decreases outcomes.len(),
    {
        if outcomes.len() > 0 {
            match self.spec_resolve(outcomes[0]) {
                DetectionStep::Retry(next) => {
                    next.detects_first_available(outcomes.skip(1));
                    assert forall|j: int| 1 <= j < outcomes.len() implies outcomes[j]
                        == outcomes.skip(1)[j - 1] by {}
                },
                _ => {},
            }
        }
    }
}

} // verus!
