//! Whole attempts: what a sequence of events makes of an attempt, and what
//! it reports.

use vstd::prelude::*;
use crate::address::{first_ipv4, SocketAddress};
use crate::attempt::{
    after, lemma_final_phase_stays, lemma_report_fits_phase, lemma_step_moves_forward,
    transition, ActionView, AttemptView, EventView, Phase,
};
use crate::error::Failure;
use crate::identity::identity_name;

verus! {

/// An attempt that has not begun.
pub open spec fn fresh(endpoint: Seq<char>, server_name: Option<Seq<char>>, timeout: u64) -> AttemptView {
    AttemptView { endpoint, server_name, timeout, phase: Phase::Idle }
}

/// The attempt after the events, taken in order.
pub open spec fn run(a: AttemptView, events: Seq<EventView>) -> AttemptView
    decreases events.len(),
{
    if events.len() == 0 {
        a
    } else {
        after(run(a, events.drop_last()), events.last())
    }
}

/// What a step reports: `Ok` with success, the failure with a failure, and
/// nothing as long as the attempt goes on.
pub open spec fn report_of(action: ActionView) -> Option<Result<(), Failure>> {
    match action {
        ActionView::ReportSuccess => Some(Ok(())),
        ActionView::ReportFailure(f) => Some(Err(f)),
        _ => None,
    }
}

/// The first report among the steps that the events make.
pub open spec fn verdict(a: AttemptView, events: Seq<EventView>) -> Option<Result<(), Failure>>
    decreases events.len(),
{
    if events.len() == 0 {
        None
    } else if verdict(a, events.drop_last()) is Some {
        verdict(a, events.drop_last())
    } else {
        report_of(transition(run(a, events.drop_last()), events.last()).1)
    }
}

/// Events change the phase of an attempt and nothing else, and never take
/// it back: the phase stays or moves to a later one.
pub proof fn lemma_run_moves_forward(a: AttemptView, events: Seq<EventView>)
    ensures
        run(a, events) == (AttemptView { phase: run(a, events).phase, ..a }),
        run(a, events).phase == a.phase || run(a, events).phase.rank() > a.phase.rank(),
    decreases events.len(),
{
    if events.len() > 0 {
        lemma_run_moves_forward(a, events.drop_last());
        lemma_step_moves_forward(run(a, events.drop_last()), events.last());
    }
}

/// An attempt that is over stays as it is, whatever comes after.
pub proof fn lemma_run_final_stays(a: AttemptView, events: Seq<EventView>)
    requires
        a.phase.spec_is_final(),
    ensures
        run(a, events) == a,
        verdict(a, events) is None,
    decreases events.len(),
{
    if events.len() > 0 {
        lemma_run_final_stays(a, events.drop_last());
        lemma_final_phase_stays(a, events.last());
    }
}

/// An attempt reports once, when it ends, and the report fits the final
/// phase: success with `Succeeded`, the timeout with `TimedOut`, any other
/// failure with `Failed`. While it goes on it has reported nothing.
pub proof fn lemma_verdict_fits_phase(a: AttemptView, events: Seq<EventView>)
    requires
        !a.phase.spec_is_final(),
    ensures
        match verdict(a, events) {
            None => !run(a, events).phase.spec_is_final(),
            Some(Ok(())) => run(a, events).phase is Succeeded,
            Some(Err(f)) => if f is Timeout {
                run(a, events).phase is TimedOut
            } else {
                run(a, events).phase is Failed
            },
        },
    decreases events.len(),
{
    if events.len() > 0 {
        let before = run(a, events.drop_last());
        lemma_verdict_fits_phase(a, events.drop_last());
        lemma_report_fits_phase(before, events.last());
        if before.phase.spec_is_final() {
            lemma_final_phase_stays(before, events.last());
        }
    }
}

/// How the wait for the handshake ended.
pub enum Completion {
    /// The handshake completed within the deadline.
    Completed,
    /// It failed within the deadline, for this cause.
    Rejected(Seq<char>),
    /// The deadline passed first.
    Elapsed,
}

/// Everything the outside may answer during one attempt. An answer that the
/// attempt never gets to ask for does not matter.
pub struct Answers {
    pub resolution: Result<Seq<SocketAddress>, Seq<char>>,
    pub setup: Result<(), Seq<char>>,
    pub completion: Completion,
}

/// The events of an attempt that is driven to its end with these answers.
pub open spec fn script(answers: Answers) -> Seq<EventView> {
    seq![
        EventView::Proceed,
        match answers.resolution {
            Ok(candidates) => EventView::Resolved(candidates),
            Err(why) => EventView::ResolutionFailed(why),
        },
        EventView::Proceed,
        match answers.setup {
            Ok(()) => EventView::SetupAccepted,
            Err(why) => EventView::SetupRejected(why),
        },
        match answers.completion {
            Completion::Completed => EventView::HandshakeCompleted,
            Completion::Rejected(why) => EventView::HandshakeRejected(why),
            Completion::Elapsed => EventView::DeadlineElapsed,
        },
    ]
}

/// The outcome of an attempt, stage by stage: the first stage that fails
/// decides, and the attempt succeeds where none does.
pub open spec fn outcome(
    endpoint: Seq<char>,
    server_name: Option<Seq<char>>,
    answers: Answers,
) -> Result<(), Failure> {
    match answers.resolution {
        Err(why) => Err(Failure::ResolverFailed(why)),
        Ok(candidates) => if first_ipv4(candidates) is None {
            Err(Failure::NoIpv4Address)
        } else if identity_name(endpoint, server_name) is None {
            Err(Failure::IdentityInference)
        } else {
            match answers.setup {
                Err(why) => Err(Failure::HandshakeSetup(why)),
                Ok(()) => match answers.completion {
                    Completion::Completed => Ok(()),
                    Completion::Rejected(why) => Err(Failure::Handshake(why)),
                    Completion::Elapsed => Err(Failure::Timeout),
                },
            }
        },
    }
}

/// An attempt driven to its end reports `outcome`, and is then over. The
/// report depends on the endpoint, the name and the answers alone, not on
/// the timeout and not on any earlier attempt: the same answers give the
/// same report again.
pub proof fn lemma_attempt_reports_outcome(
    endpoint: Seq<char>,
    server_name: Option<Seq<char>>,
    timeout: u64,
    answers: Answers,
)
    ensures
        verdict(fresh(endpoint, server_name, timeout), script(answers)) == Some(
            outcome(endpoint, server_name, answers),
        ),
        run(fresh(endpoint, server_name, timeout), script(answers)).phase.spec_is_final(),
{
    let a = fresh(endpoint, server_name, timeout);
    let s = script(answers);
    let s4 = s.drop_last();
    let s3 = s4.drop_last();
    let s2 = s3.drop_last();
    let s1 = s2.drop_last();
    let s0 = s1.drop_last();
    assert(s0.len() == 0);
    assert(run(a, s0) == a);
    assert(verdict(a, s0) is None);
    assert(s1.last() == s[0]);
    assert(s2.last() == s[1]);
    assert(s3.last() == s[2]);
    assert(s4.last() == s[3]);
    assert(s.last() == s[4]);
    assert(run(a, s1) == after(a, s[0]));
    assert(verdict(a, s1) is None);
    assert(run(a, s2) == after(run(a, s1), s[1]));
    assert(run(a, s3) == after(run(a, s2), s[2]));
    assert(run(a, s4) == after(run(a, s3), s[3]));
    assert(run(a, s) == after(run(a, s4), s[4]));
    assert(verdict(a, s2) == report_of(transition(run(a, s1), s[1]).1));
    assert(verdict(a, s3) == if verdict(a, s2) is Some {
        verdict(a, s2)
    } else {
        report_of(transition(run(a, s2), s[2]).1)
    });
    assert(verdict(a, s4) == if verdict(a, s3) is Some {
        verdict(a, s3)
    } else {
        report_of(transition(run(a, s3), s[3]).1)
    });
    assert(verdict(a, s) == if verdict(a, s4) is Some {
        verdict(a, s4)
    } else {
        report_of(transition(run(a, s4), s[4]).1)
    });
    lemma_verdict_fits_phase(a, s);
}

/// While every earlier stage passes, a deadline that passes before the
/// handshake ends makes the attempt report `Timeout`, whatever delayed it.
pub proof fn lemma_elapsed_deadline_reports_timeout(
    endpoint: Seq<char>,
    server_name: Option<Seq<char>>,
    timeout: u64,
    answers: Answers,
)
    requires
        answers.resolution is Ok,
        first_ipv4(answers.resolution->Ok_0) is Some,
        identity_name(endpoint, server_name) is Some,
        answers.setup is Ok,
        answers.completion is Elapsed,
    ensures
        verdict(fresh(endpoint, server_name, timeout), script(answers)) == Some(
            Err::<(), Failure>(Failure::Timeout),
        ),
        run(fresh(endpoint, server_name, timeout), script(answers)).phase is TimedOut,
{
    lemma_attempt_reports_outcome(endpoint, server_name, timeout, answers);
    lemma_verdict_fits_phase(fresh(endpoint, server_name, timeout), script(answers));
}

} // verus!
