//! What holds of whole operations of the DNS manager, whatever the outcomes
//! of the calls that they ask for.

use crate::dns::{
    BackendCallView, BackendError, Detection, DetectionStep, DnsConfigView, DnsMonitorHolder,
    DnsMonitorView, DnsStepView, Error,
};
use vstd::prelude::*;

verus! {

/// How an operation went when the calls it asked for had given outcomes.
pub struct Run {
    /// The state in which the operation left the manager.
    pub state: DnsMonitorView,
    /// The calls that the operation asked for, in order.
    pub calls: Seq<BackendCallView>,
    /// The result of the operation, if the outcomes sufficed to finish it.
    pub result: Option<Result<(), Error>>,
}

impl DnsMonitorView {
    /// Carries on from `step` for as long as the step asks for a call and
    /// `outcomes` holds the outcome of one more call.
    pub open spec fn run(self, step: DnsStepView, outcomes: Seq<Result<(), BackendError>>) -> Run
        decreases outcomes.len(),
    {
        match step {
            DnsStepView::Done(result) => Run { state: self, calls: seq![], result: Some(result) },
            DnsStepView::Call(call) => if outcomes.len() == 0 {
                Run { state: self, calls: seq![call], result: None }
            } else {
                let (state, step) = self.resume(outcomes[0]);
                let rest = state.run(step, outcomes.skip(1));
                Run { state: rest.state, calls: seq![call] + rest.calls, result: rest.result }
            },
        }
    }

    /// A whole `set`, with the outcomes of its calls.
    pub open spec fn run_set(
        self,
        dns_module: Option<Seq<char>>,
        config: DnsConfigView,
        outcomes: Seq<Result<(), BackendError>>,
    ) -> Run {
        let (state, step) = self.set(DnsMonitorHolder::spec_new(dns_module), config);
        state.run(step, outcomes)
    }

    /// A whole `reset`, with the outcomes of its calls.
    pub open spec fn run_reset(self, outcomes: Seq<Result<(), BackendError>>) -> Run {
        let (state, step) = self.reset();
        state.run(step, outcomes)
    }
}

/// An automatic detection tries its candidate and then what the detection
/// after it tries.
proof fn candidates_unfold(detection: Detection)
    requires
        !detection.exclusive,
    ensures
        detection.candidates() == seq![detection.candidate]
            + match detection.candidate.spec_successor() {
            Some(candidate) => Detection { candidate, exclusive: false }.candidates(),
            None => Seq::empty(),
        },
{
    let order = DnsMonitorHolder::detection_order();
    assert(order.len() == 4);
    match detection.candidate.spec_successor() {
        Some(candidate) => {
            assert(detection.candidates() =~= seq![detection.candidate] + Detection {
                candidate,
                exclusive: false,
            }.candidates());
        },
        None => {
            assert(detection.candidates() =~= seq![detection.candidate] + Seq::empty());
        },
    }
}

/// While a `set` probes, a facility ends up bound only in one way: the
/// candidates before it failed their probes, in order and one after another,
/// its own probe succeeded, and it accepted the configuration. The index of
/// the bound facility among the candidates is returned.
pub proof fn probing_binds_first_available(
    detection: Detection,
    config: DnsConfigView,
    outcomes: Seq<Result<(), BackendError>>,
) -> (k: int)
    requires
        DnsMonitorView::Probing(detection, config).run(
            DnsStepView::Call(BackendCallView::Probe(detection.candidate)),
            outcomes,
        ).state.bound() is Some,
    ensures
        0 <= k < detection.candidates().len(),
        k + 2 <= outcomes.len(),
        forall|j: int| 0 <= j < k ==> (#[trigger] outcomes[j]) is Err,
        outcomes[k] is Ok,
        outcomes[k + 1] is Ok,
        ({
            let run = DnsMonitorView::Probing(detection, config).run(
                DnsStepView::Call(BackendCallView::Probe(detection.candidate)),
                outcomes,
            );
            &&& run.state == DnsMonitorView::Idle(Some(detection.candidates()[k]))
            &&& run.result == Some(Ok::<(), Error>(()))
            &&& run.calls.len() == k + 2
            &&& forall|j: int|
                0 <= j <= k ==> #[trigger] run.calls[j] == BackendCallView::Probe(
                    detection.candidates()[j],
                )
            &&& run.calls[k + 1] == detection.candidates()[k].spec_set(
                config.interface,
                config.servers,
            )
        }),
    decreases outcomes.len(),
{
    let start = DnsMonitorView::Probing(detection, config);
    let run = start.run(DnsStepView::Call(BackendCallView::Probe(detection.candidate)), outcomes);
    assert(outcomes.len() > 0);
    let (state, step) = start.resume(outcomes[0]);
    let rest = state.run(step, outcomes.skip(1));
    match detection.spec_resolve(outcomes[0]) {
        DetectionStep::Bound(backend) => {
            assert(outcomes.skip(1).len() > 0);
            let (last_state, last_step) = state.resume(outcomes.skip(1)[0]);
            let tail = last_state.run(last_step, outcomes.skip(1).skip(1));
            assert(outcomes.skip(1)[0] == outcomes[1]);
            assert(detection.candidates()[0] == detection.candidate);
            assert(run.calls =~= seq![
                BackendCallView::Probe(detection.candidate),
                backend.spec_set(config.interface, config.servers),
            ]);
            0
        },
        DetectionStep::Retry(next) => {
            let k = probing_binds_first_available(next, config, outcomes.skip(1));
            candidates_unfold(detection);
            assert forall|j: int| 0 <= j < k + 1 implies (#[trigger] outcomes[j]) is Err by {
                if j > 0 {
                    assert(outcomes[j] == outcomes.skip(1)[j - 1]);
                }
            }
            assert(outcomes[k + 1] == outcomes.skip(1)[k]);
            assert(outcomes[k + 2] == outcomes.skip(1)[k + 1]);
            assert forall|j: int| 0 <= j <= k + 1 implies #[trigger] run.calls[j]
                == BackendCallView::Probe(detection.candidates()[j]) by {
                if j > 0 {
                    assert(run.calls[j] == rest.calls[j - 1]);
                    assert(detection.candidates()[j] == next.candidates()[j - 1]);
                }
            }
            assert(run.calls[k + 2] == rest.calls[k + 1]);
            assert(detection.candidates()[k + 1] == next.candidates()[k]);
            k + 1
        },
        DetectionStep::Failed(error) => {
            0
        },
    }
}

/// While a `set` probes, the first candidate whose probe succeeds is bound
/// if it accepts the configuration, whatever the outcomes of later calls
/// would have been.
pub proof fn probing_succeeds_with_first_available(
    detection: Detection,
    config: DnsConfigView,
    outcomes: Seq<Result<(), BackendError>>,
    k: int,
)
    requires
        0 <= k < detection.candidates().len(),
        k + 2 <= outcomes.len(),
        forall|j: int| 0 <= j < k ==> (#[trigger] outcomes[j]) is Err,
        outcomes[k] is Ok,
        outcomes[k + 1] is Ok,
    ensures
        ({
            let run = DnsMonitorView::Probing(detection, config).run(
                DnsStepView::Call(BackendCallView::Probe(detection.candidate)),
                outcomes,
            );
            &&& run.state == DnsMonitorView::Idle(Some(detection.candidates()[k]))
            &&& run.result == Some(Ok::<(), Error>(()))
        }),
    decreases outcomes.len(),
{
    let start = DnsMonitorView::Probing(detection, config);
    let (state, step) = start.resume(outcomes[0]);
    let rest = state.run(step, outcomes.skip(1));
    if k == 0 {
        let (last_state, last_step) = state.resume(outcomes.skip(1)[0]);
        let tail = last_state.run(last_step, outcomes.skip(1).skip(1));
        assert(outcomes.skip(1)[0] == outcomes[1]);
        assert(detection.candidates()[0] == detection.candidate);
    } else {
        assert(outcomes[0] is Err);
        assert(!detection.exclusive);
        candidates_unfold(detection);
        match detection.spec_resolve(outcomes[0]) {
            DetectionStep::Retry(next) => {
                assert forall|j: int| 0 <= j < k - 1 implies (#[trigger] outcomes.skip(1)[j]) is Err by {
                    assert(outcomes.skip(1)[j] == outcomes[j + 1]);
                }
                assert(outcomes.skip(1)[k - 1] == outcomes[k]);
                assert(outcomes.skip(1)[k] == outcomes[k + 1]);
                assert(detection.candidates()[k] == next.candidates()[k - 1]);
                probing_succeeds_with_first_available(next, config, outcomes.skip(1), k - 1);
            },
            _ => {
                assert(detection.candidates().len() == 1);
            },
        }
    }
}

/// While a `set` probes, it fails for want of a facility when the probes of
/// all candidates fail. Each candidate is then probed once, in order, and no
/// other call is made.
pub proof fn probing_fails_when_nothing_is_available(
    detection: Detection,
    config: DnsConfigView,
    outcomes: Seq<Result<(), BackendError>>,
)
    requires
        detection.candidates().len() <= outcomes.len(),
        forall|j: int| 0 <= j < detection.candidates().len() ==> (#[trigger] outcomes[j]) is Err,
    ensures
        ({
            let run = DnsMonitorView::Probing(detection, config).run(
                DnsStepView::Call(BackendCallView::Probe(detection.candidate)),
                outcomes,
            );
            &&& run.state == DnsMonitorView::Idle(None)
            &&& run.result == Some(Err::<(), Error>(Error::NoDnsMonitor))
            &&& run.calls == detection.candidates().map_values(
                |candidate: DnsMonitorHolder| BackendCallView::Probe(candidate),
            )
        }),
    decreases outcomes.len(),
{
    let start = DnsMonitorView::Probing(detection, config);
    let run = start.run(DnsStepView::Call(BackendCallView::Probe(detection.candidate)), outcomes);
    let probes = detection.candidates().map_values(
        |candidate: DnsMonitorHolder| BackendCallView::Probe(candidate),
    );
    assert(detection.candidates().len() > 0);
    let (state, step) = start.resume(outcomes[0]);
    let rest = state.run(step, outcomes.skip(1));
    match detection.spec_resolve(outcomes[0]) {
        DetectionStep::Retry(next) => {
            candidates_unfold(detection);
            assert forall|j: int| 0 <= j < next.candidates().len() implies (
            #[trigger] outcomes.skip(1)[j]) is Err by {
                assert(outcomes.skip(1)[j] == outcomes[j + 1]);
            }
            probing_fails_when_nothing_is_available(next, config, outcomes.skip(1));
            assert(run.calls =~= probes);
        },
        _ => {
            if !detection.exclusive {
                candidates_unfold(detection);
            }
            assert(run.calls =~= probes);
        },
    }
}

/// While a `set` probes, it fails for want of a facility only when the
/// probes of all candidates have failed.
pub proof fn probing_failure_means_nothing_is_available(
    detection: Detection,
    config: DnsConfigView,
    outcomes: Seq<Result<(), BackendError>>,
)
    requires
        DnsMonitorView::Probing(detection, config).run(
            DnsStepView::Call(BackendCallView::Probe(detection.candidate)),
            outcomes,
        ).result == Some(Err::<(), Error>(Error::NoDnsMonitor)),
    ensures
        detection.candidates().len() <= outcomes.len(),
        forall|j: int| 0 <= j < detection.candidates().len() ==> (#[trigger] outcomes[j]) is Err,
    decreases outcomes.len(),
{
    let start = DnsMonitorView::Probing(detection, config);
    assert(outcomes.len() > 0);
    let (state, step) = start.resume(outcomes[0]);
    let rest = state.run(step, outcomes.skip(1));
    match detection.spec_resolve(outcomes[0]) {
        DetectionStep::Bound(backend) => {
            assert(outcomes.skip(1).len() > 0);
            let (last_state, last_step) = state.resume(outcomes.skip(1)[0]);
            let tail = last_state.run(last_step, outcomes.skip(1).skip(1));
            assert(rest.result == tail.result);
            assert(tail.result != Some(Err::<(), Error>(Error::NoDnsMonitor)));
        },
        DetectionStep::Retry(next) => {
            candidates_unfold(detection);
            probing_failure_means_nothing_is_available(next, config, outcomes.skip(1));
            assert forall|j: int| 0 <= j < detection.candidates().len() implies (
            #[trigger] outcomes[j]) is Err by {
                if j > 0 {
                    assert(outcomes[j] == outcomes.skip(1)[j - 1]);
                }
            }
        },
        DetectionStep::Failed(error) => {
            if !detection.exclusive {
                candidates_unfold(detection);
            }
        },
    }
}

/// Only success binds: from a state with an operation in flight, a facility
/// is bound in the end only if the operation has finished and succeeded.
proof fn only_success_binds(
    state: DnsMonitorView,
    step: DnsStepView,
    outcomes: Seq<Result<(), BackendError>>,
)
    requires
        state.in_flight() || step is Done,
        step matches DnsStepView::Done(result) ==> (result is Err ==> state.bound() is None),
    ensures
        state.run(step, outcomes).state.bound() is Some ==> state.run(
            step,
            outcomes,
        ).result matches Some(Ok(_)),
    decreases outcomes.len(),
{
    match step {
        DnsStepView::Done(result) => {},
        DnsStepView::Call(call) => {
            if outcomes.len() > 0 {
                let (next, next_step) = state.resume(outcomes[0]);
                only_success_binds(next, next_step, outcomes.skip(1));
            }
        },
    }
}

/// A `reset` with nothing bound asks for no call and succeeds. After any
/// `reset`, however the call it asked for turned out, nothing is bound, so
/// that a second `reset` asks for no call and succeeds.
pub proof fn reset_twice_is_reset_once(
    state: DnsMonitorView,
    outcomes: Seq<Result<(), BackendError>>,
    later_outcomes: Seq<Result<(), BackendError>>,
)
    ensures
        state.bound() is None ==> state.run_reset(outcomes) == (Run {
            state: DnsMonitorView::Idle(None),
            calls: Seq::empty(),
            result: Some(Ok(())),
        }),
        state.run_reset(outcomes).state.bound() is None,
        state.run_reset(outcomes).result is Some ==> state.run_reset(outcomes).state.run_reset(
            later_outcomes,
        ) == (Run { state: DnsMonitorView::Idle(None), calls: Seq::empty(), result: Some(Ok(())) }),
{
    let (first, step) = state.reset();
    if step is Call && outcomes.len() > 0 {
        let (second, done) = first.resume(outcomes[0]);
        assert(done is Done);
        assert(second == DnsMonitorView::Idle(None));
        let rest = second.run(done, outcomes.skip(1));
        assert(rest.state == second);
    }
}

/// A `set` that leaves a facility bound has detected that facility anew.
/// What was bound before was told first to restore what it changed, and did
/// so. Then the candidates that `dns_module` asks for were probed in order;
/// the facility bound is the first one whose probe succeeded, and it accepted
/// the configuration that the `set` was given. Its index among the candidates
/// is returned.
pub proof fn set_binds_freshly_detected(
    state: DnsMonitorView,
    dns_module: Option<Seq<char>>,
    config: DnsConfigView,
    outcomes: Seq<Result<(), BackendError>>,
) -> (k: int)
    requires
        state.run_set(dns_module, config, outcomes).state.bound() is Some,
    ensures
        ({
            let run = state.run_set(dns_module, config, outcomes);
            let candidates = DnsMonitorHolder::spec_new(dns_module).candidates();
            let before: int = if state.bound() is Some {
                1
            } else {
                0
            };
            &&& state.bound() matches Some(previous) ==> run.calls[0] == BackendCallView::Reset(
                previous,
            ) && outcomes[0] is Ok
            &&& 0 <= k < candidates.len()
            &&& before + k + 2 <= outcomes.len()
            &&& forall|j: int| 0 <= j < k ==> (#[trigger] outcomes[before + j]) is Err
            &&& outcomes[before + k] is Ok
            &&& outcomes[before + k + 1] is Ok
            &&& run.state == DnsMonitorView::Idle(Some(candidates[k]))
            &&& run.result == Some(Ok::<(), Error>(()))
            &&& run.calls.len() == before + k + 2
            &&& forall|j: int|
                0 <= j <= k ==> #[trigger] run.calls[before + j] == BackendCallView::Probe(
                    candidates[j],
                )
            &&& run.calls[before + k + 1] == candidates[k].spec_set(
                config.interface,
                config.servers,
            )
        }),
{
    let detection = DnsMonitorHolder::spec_new(dns_module);
    let (first, step) = state.set(detection, config);
    let run = first.run(step, outcomes);
    let probe = DnsStepView::Call(BackendCallView::Probe(detection.candidate));
    match state.bound() {
        Some(previous) => {
            assert(outcomes.len() > 0);
            let (second, next) = first.resume(outcomes[0]);
            let rest = second.run(next, outcomes.skip(1));
            assert(outcomes[0] is Ok) by {
                if outcomes[0] is Err {
                    assert(rest.state == second);
                }
            }
            let k = probing_binds_first_available(detection, config, outcomes.skip(1));
            assert forall|j: int| 0 <= j < k implies (#[trigger] outcomes[1 + j]) is Err by {
                assert(outcomes[1 + j] == outcomes.skip(1)[j]);
            }
            assert(outcomes[1 + k] == outcomes.skip(1)[k]);
            assert(outcomes[1 + k + 1] == outcomes.skip(1)[k + 1]);
            assert forall|j: int| 0 <= j <= k implies #[trigger] run.calls[1 + j]
                == BackendCallView::Probe(detection.candidates()[j]) by {
                assert(run.calls[1 + j] == rest.calls[j]);
            }
            assert(run.calls[1 + k + 1] == rest.calls[k + 1]);
            k
        },
        None => probing_binds_first_available(detection, config, outcomes),
    }
}

/// A `set` leaves a facility bound only if it has finished and succeeded:
/// while it waits for an outcome, and after a call has failed, nothing is
/// bound.
pub proof fn set_binds_nothing_without_success(
    state: DnsMonitorView,
    dns_module: Option<Seq<char>>,
    config: DnsConfigView,
    outcomes: Seq<Result<(), BackendError>>,
)
    ensures
        state.run_set(dns_module, config, outcomes).state.bound() is Some ==> state.run_set(
            dns_module,
            config,
            outcomes,
        ).result matches Some(Ok(_)),
{
    let (first, step) = state.set(DnsMonitorHolder::spec_new(dns_module), config);
    only_success_binds(first, step, outcomes);
}

/// A module name that is not one of the known ones changes nothing: the
/// `set` goes as it does without a name, and every facility is a candidate,
/// in the order of automatic detection.
pub proof fn unknown_module_name_is_no_name(
    state: DnsMonitorView,
    name: Seq<char>,
    config: DnsConfigView,
    outcomes: Seq<Result<(), BackendError>>,
)
    requires
        DnsMonitorHolder::spec_from_module_name(name) is None,
    ensures
        DnsMonitorHolder::spec_new(Some(name)) == DnsMonitorHolder::spec_new(None),
        DnsMonitorHolder::spec_new(Some(name)).candidates() == DnsMonitorHolder::detection_order(),
        state.run_set(Some(name), config, outcomes) == state.run_set(None, config, outcomes),
{
    assert(DnsMonitorHolder::detection_order().skip(0) =~= DnsMonitorHolder::detection_order());
}

} // verus!
