//! The loop controller: a state machine that takes one event at a time
//! (a reply of the backend, an answer of the operator, the end of a run) and
//! says what comes next, within a fixed budget of attempts.

use vstd::prelude::*;
use crate::backend::BackendError;
use crate::executor::{ExecutionResult, ResultView};
use crate::prompt::{
    build_user_prompt, first_user_text, lemma_retry_text_holds_outcome, user_text, ExecutionHistory,
    HistoryView,
};
use crate::text::contains_text;
use crate::safety::{is_dangerous, is_dangerous_command};
use crate::sanitize::{clean, clean_command_output};

verus! {

/// How many attempts one run may make.
pub const MAX_ATTEMPTS: u32 = 3;

/// How a run ended.
#[derive(Debug, Clone, Copy, PartialEq, Eq, Structural)]
pub enum Outcome {
    /// The operator confirmed that the goal was achieved.
    Achieved,
    /// The operator declined to run the command.
    Declined,
    /// The command was shown and, as asked, not run.
    DryRun,
    /// The budget of attempts is used up.
    MaxAttempts,
    /// The safety gate refused the command.
    Dangerous,
    /// The backend gave no command.
    BackendFailed(BackendError),
    /// The command could not be started.
    SpawnFailed,
}

impl Outcome {
    /// Whether the run ended with an error. To achieve the goal, to decline
    /// or only show a command, to use up the budget and to have a command
    /// refused as dangerous are ends without error.
    pub open spec fn fatal(self) -> bool {
        self is BackendFailed || self is SpawnFailed
    }

    /// Whether the run ended with an error.
    pub fn is_fatal(&self) -> (fatal: bool)
        ensures
            fatal == self.fatal(),
    {
        match self {
            Outcome::BackendFailed(_) => true,
            Outcome::SpawnFailed => true,
            _ => false,
        }
    }
}

/// Where a run stands, and so what has to happen next.
#[derive(Debug, Clone, PartialEq, Eq)]
pub enum Phase {
    /// A command has to be asked of the backend.
    Synthesizing,
    /// The operator has to say whether this command may run.
    AwaitingConsent(String),
    /// This command has to be run.
    Executing(String),
    /// The operator has to say whether this successful attempt achieved the goal.
    AwaitingVerdict(ExecutionHistory),
    /// The run is over.
    Finished(Outcome),
}

/// A phase as plain values.
pub enum PhaseView {
    Synthesizing,
    AwaitingConsent(Seq<char>),
    Executing(Seq<char>),
    AwaitingVerdict(HistoryView),
    Finished(Outcome),
}

impl View for Phase {
    type V = PhaseView;

    open spec fn view(&self) -> PhaseView {
        match self {
            Phase::Synthesizing => PhaseView::Synthesizing,
            Phase::AwaitingConsent(command) => PhaseView::AwaitingConsent(command@),
            Phase::Executing(command) => PhaseView::Executing(command@),
            Phase::AwaitingVerdict(attempt) => PhaseView::AwaitingVerdict(attempt@),
            Phase::Finished(outcome) => PhaseView::Finished(*outcome),
        }
    }
}

/// What happened outside since the last step.
#[derive(Debug, Clone, PartialEq, Eq)]
pub enum Event {
    /// The backend replied with this raw text.
    Replied(String),
    /// The backend gave no reply.
    BackendFailed(BackendError),
    /// The operator allowed, or declined, to run the command.
    Consent(bool),
    /// The command ran to its end.
    Executed(ExecutionResult),
    /// The command could not be started.
    SpawnFailed,
    /// The operator found the goal achieved, or not.
    Verdict(bool),
}

/// An event as plain values.
pub enum EventView {
    Replied(Seq<char>),
    BackendFailed(BackendError),
    Consent(bool),
    Executed(ResultView),
    SpawnFailed,
    Verdict(bool),
}

impl View for Event {
    type V = EventView;

    open spec fn view(&self) -> EventView {
        match self {
            Event::Replied(raw) => EventView::Replied(raw@),
            Event::BackendFailed(e) => EventView::BackendFailed(*e),
            Event::Consent(yes) => EventView::Consent(*yes),
            Event::Executed(result) => EventView::Executed(result@),
            Event::SpawnFailed => EventView::SpawnFailed,
            Event::Verdict(yes) => EventView::Verdict(*yes),
        }
    }
}

/// The state of a run as plain values.
pub struct ControllerView {
    pub attempt: nat,
    pub previous: Option<HistoryView>,
    pub phase: PhaseView,
    pub dry_run: bool,
}

/// The state of a run: the number of the attempt in hand, the outcome of the
/// one before it, if any, and the phase.
#[derive(Debug)]
pub struct Controller {
    attempt: u32,
    previous: Option<ExecutionHistory>,
    phase: Phase,
    dry_run: bool,
}

/// The state in which every run begins.
pub open spec fn initial(dry_run: bool) -> ControllerView {
    ControllerView { attempt: 1, previous: None, phase: PhaseView::Synthesizing, dry_run }
}

/// The state with the run ended.
pub open spec fn finished(s: ControllerView, outcome: Outcome) -> ControllerView {
    ControllerView { phase: PhaseView::Finished(outcome), ..s }
}

/// The state after the safety gate has judged a command: a dangerous one ends
/// the run at once; in a dry run the command is never run; else the operator
/// is asked.
pub open spec fn gated(s: ControllerView, command: Seq<char>, dangerous: bool) -> ControllerView {
    if dangerous {
        finished(s, Outcome::Dangerous)
    } else if s.dry_run {
        finished(s, Outcome::DryRun)
    } else {
        ControllerView { phase: PhaseView::AwaitingConsent(command), ..s }
    }
}

/// The state after an attempt that did not achieve the goal: the attempt is
/// remembered in place of the one before, the counter goes up by one, and the
/// run ends where the budget is used up.
pub open spec fn retried(s: ControllerView, attempt: HistoryView) -> ControllerView {
    ControllerView {
        attempt: s.attempt + 1,
        previous: Some(attempt),
        phase: if s.attempt + 1 > MAX_ATTEMPTS {
            PhaseView::Finished(Outcome::MaxAttempts)
        } else {
            PhaseView::Synthesizing
        },
        dry_run: s.dry_run,
    }
}

/// The record of the attempt in hand.
pub open spec fn recorded(s: ControllerView, command: Seq<char>, result: ResultView) -> HistoryView {
    HistoryView {
        command,
        output: result.captured_text,
        success: result.succeeded,
        attempt: s.attempt,
    }
}

/// One step of the state machine. An event that the phase does not wait for
/// leaves the state as it is.
pub open spec fn step_spec(s: ControllerView, e: EventView) -> ControllerView {
    match (s.phase, e) {
        (PhaseView::Synthesizing, EventView::Replied(raw)) => gated(
            s,
            clean(raw),
            is_dangerous(clean(raw)),
        ),
        (PhaseView::Synthesizing, EventView::BackendFailed(error)) => finished(
            s,
            Outcome::BackendFailed(error),
        ),
        (PhaseView::AwaitingConsent(command), EventView::Consent(yes)) => if yes {
            ControllerView { phase: PhaseView::Executing(command), ..s }
        } else {
            finished(s, Outcome::Declined)
        },
        (PhaseView::Executing(command), EventView::Executed(result)) => if result.succeeded {
            ControllerView {
                phase: PhaseView::AwaitingVerdict(recorded(s, command, result)),
                ..s
            }
        } else {
            retried(s, recorded(s, command, result))
        },
        (PhaseView::Executing(_), EventView::SpawnFailed) => finished(s, Outcome::SpawnFailed),
        (PhaseView::AwaitingVerdict(attempt), EventView::Verdict(yes)) => if yes {
            finished(s, Outcome::Achieved)
        } else {
            retried(s, attempt)
        },
        _ => s,
    }
}

impl Controller {
    #[verifier::type_invariant]
    spec fn in_range(self) -> bool {
        &&& 1 <= self.attempt <= MAX_ATTEMPTS + 1
        &&& self.attempt > MAX_ATTEMPTS ==> self.phase is Finished
    }

    /// The state as plain values.
    pub closed spec fn view(&self) -> ControllerView {
        ControllerView {
            attempt: self.attempt as nat,
            previous: match self.previous {
                Some(h) => Some(h@),
                None => None,
            },
            phase: self.phase@,
            dry_run: self.dry_run,
        }
    }

    /// Begins a run. In a dry run no command is ever run.
    pub fn new(dry_run: bool) -> (state: Controller)
        ensures
            state@ == initial(dry_run),
            well_formed(state@),
    {
        Controller { attempt: 1, previous: None, phase: Phase::Synthesizing, dry_run }
    }

    /// The number of the attempt in hand, counted from one.
    pub fn attempt(&self) -> (n: u32)
        ensures
            n == self@.attempt,
            1 <= n <= MAX_ATTEMPTS + 1,
    {
        proof {
            use_type_invariant(self);
        }
        self.attempt
    }

    /// The outcome of the attempt before the one in hand.
    pub fn previous(&self) -> (previous: Option<&ExecutionHistory>)
        ensures
            match previous {
                Some(h) => self@.previous == Some(h@),
                None => self@.previous is None,
            },
    {
        self.previous.as_ref()
    }

    /// The phase, which says what has to happen next.
    pub fn phase(&self) -> (phase: &Phase)
        ensures
            phase@ == self@.phase,
    {
        &self.phase
    }

    /// How the run ended, once it has.
    pub fn outcome(&self) -> (outcome: Option<Outcome>)
        ensures
            match outcome {
                Some(o) => self@.phase == PhaseView::Finished(o),
                None => !(self@.phase is Finished),
            },
    {
        match &self.phase {
            Phase::Finished(o) => Some(*o),
            _ => None,
        }
    }

    /// The user message for the attempt in hand, in the language asked for:
    /// of the task alone on the first attempt, of the task and the attempt
    /// before on a retry.
    pub fn user_prompt(&self, language: &str, task: &str) -> (prompt: String)
        ensures
            prompt@ == user_text(language@, task@, self@.previous),
    {
        build_user_prompt(language, task, self.previous.as_ref())
    }

    fn finish(self, outcome: Outcome) -> (next: Controller)
        ensures
            next@ == finished(self@, outcome),
    {
        proof {
            use_type_invariant(&self);
        }
        Controller {
            attempt: self.attempt,
            previous: self.previous,
            phase: Phase::Finished(outcome),
            dry_run: self.dry_run,
        }
    }

    fn retry(self, attempt: ExecutionHistory) -> (next: Controller)
        requires
            !(self.phase is Finished),
        ensures
            next@ == retried(self@, attempt@),
    {
        proof {
            use_type_invariant(&self);
        }
        let number: u32 = self.attempt + 1;
        let phase = if number > MAX_ATTEMPTS {
            Phase::Finished(Outcome::MaxAttempts)
        } else {
            Phase::Synthesizing
        };
        Controller { attempt: number, previous: Some(attempt), phase, dry_run: self.dry_run }
    }

    /// Takes the verdict of the safety gate on a command that the backend
    /// gave. Outside the synthesizing phase the state stays as it is.
    pub fn after_gate(self, command: String, dangerous: bool) -> (next: Controller)
        ensures
            next@ == if self@.phase is Synthesizing {
                gated(self@, command@, dangerous)
            } else {
                self@
            },
    {
        proof {
            use_type_invariant(&self);
        }
        match self.phase {
            Phase::Synthesizing => {
                if dangerous {
                    self.finish(Outcome::Dangerous)
                } else if self.dry_run {
                    self.finish(Outcome::DryRun)
                } else {
                    Controller {
                        attempt: self.attempt,
                        previous: self.previous,
                        phase: Phase::AwaitingConsent(command),
                        dry_run: self.dry_run,
                    }
                }
            },
            _ => self,
        }
    }

    /// One step of the run: takes what happened outside and gives the state
    /// whose phase says what has to happen next. A reply of the backend is
    /// sanitized and put before the safety gate here.
    pub fn step(self, event: Event) -> (next: Controller)
        ensures
            next@ == step_spec(self@, event@),
            well_formed(self@) ==> well_formed(next@),
    {
        proof {
            use_type_invariant(&self);
        }
        let Controller { attempt, previous, phase, dry_run } = self;
        match (phase, event) {
            (Phase::Synthesizing, Event::Replied(raw)) => {
                let command = clean_command_output(raw.as_str());
                let dangerous = is_dangerous_command(command.as_str());
                let state = Controller { attempt, previous, phase: Phase::Synthesizing, dry_run };
                state.after_gate(command, dangerous)
            },
            (Phase::Synthesizing, Event::BackendFailed(error)) => {
                let state = Controller { attempt, previous, phase: Phase::Synthesizing, dry_run };
                state.finish(Outcome::BackendFailed(error))
            },
            (Phase::AwaitingConsent(command), Event::Consent(yes)) => {
                if yes {
                    Controller { attempt, previous, phase: Phase::Executing(command), dry_run }
                } else {
                    Controller {
                        attempt,
                        previous,
                        phase: Phase::Finished(Outcome::Declined),
                        dry_run,
                    }
                }
            },
            (Phase::Executing(command), Event::Executed(result)) => {
                let succeeded = result.succeeded;
                let record = ExecutionHistory {
                    command,
                    output: result.captured_text,
                    success: succeeded,
                    attempt,
                };
                if succeeded {
                    Controller {
                        attempt,
                        previous,
                        phase: Phase::AwaitingVerdict(record),
                        dry_run,
                    }
                } else {
                    let state = Controller {
                        attempt,
                        previous,
                        phase: Phase::Synthesizing,
                        dry_run,
                    };
                    state.retry(record)
                }
            },
            (Phase::Executing(_), Event::SpawnFailed) => {
                Controller {
                    attempt,
                    previous,
                    phase: Phase::Finished(Outcome::SpawnFailed),
                    dry_run,
                }
            },
            (Phase::AwaitingVerdict(record), Event::Verdict(yes)) => {
                if yes {
                    Controller {
                        attempt,
                        previous,
                        phase: Phase::Finished(Outcome::Achieved),
                        dry_run,
                    }
                } else {
                    let state = Controller {
                        attempt,
                        previous,
                        phase: Phase::Synthesizing,
                        dry_run,
                    };
                    state.retry(record)
                }
            },
            (phase, _) => Controller { attempt, previous, phase, dry_run },
        }
    }
}

/// What holds of every state that a run passes through: the counter stays
/// within the budget while the run goes on, something came before exactly
/// from the second attempt on, and it is the attempt numbered one less; no
/// command that waits to be run, runs or has run is dangerous, and none does
/// in a dry run.
pub open spec fn well_formed(s: ControllerView) -> bool {
    &&& 1 <= s.attempt <= MAX_ATTEMPTS + 1
    &&& s.attempt > MAX_ATTEMPTS ==> s.phase == PhaseView::Finished(Outcome::MaxAttempts)
    &&& s.attempt == 1 <==> s.previous is None
    &&& s.previous matches Some(h) ==> h.attempt + 1 == s.attempt && !is_dangerous(h.command)
    &&& match s.phase {
        PhaseView::AwaitingConsent(command) => !is_dangerous(command) && !s.dry_run,
        PhaseView::Executing(command) => !is_dangerous(command) && !s.dry_run,
        PhaseView::AwaitingVerdict(h) => {
            &&& h.attempt == s.attempt
            &&& h.success
            &&& !is_dangerous(h.command)
            &&& !s.dry_run
        },
        _ => true,
    }
}

/// The state after a run has taken a sequence of events.
pub open spec fn run(s: ControllerView, events: Seq<EventView>) -> ControllerView
    decreases events.len(),
{
    if events.len() == 0 {
        s
    } else {
        run(step_spec(s, events[0]), events.skip(1))
    }
}

/// An event that closes one call of the backend.
pub open spec fn closes_synthesis(s: ControllerView, e: EventView) -> bool {
    s.phase is Synthesizing && (e is Replied || e is BackendFailed)
}

/// How many calls of the backend a run makes over a sequence of events.
pub open spec fn syntheses(s: ControllerView, events: Seq<EventView>) -> nat
    decreases events.len(),
{
    if events.len() == 0 {
        0
    } else {
        let one: nat = if closes_synthesis(s, events[0]) {
            1
        } else {
            0
        };
        one + syntheses(step_spec(s, events[0]), events.skip(1))
    }
}

/// How many calls of the backend a state still allows.
pub open spec fn syntheses_left(s: ControllerView) -> int {
    match s.phase {
        PhaseView::Finished(_) => 0,
        PhaseView::Synthesizing => MAX_ATTEMPTS + 1 - s.attempt,
        _ => MAX_ATTEMPTS - s.attempt,
    }
}

/// One attempt that is run and does not achieve the goal: the command passes
/// the safety gate, the operator lets it run, and it fails or the operator is not
/// content with it.
pub open spec fn unachieved_round(s: ControllerView, command: Seq<char>, result: ResultView) -> ControllerView {
    let ran = step_spec(
        step_spec(gated(s, command, false), EventView::Consent(true)),
        EventView::Executed(result),
    );
    if result.succeeded {
        step_spec(ran, EventView::Verdict(false))
    } else {
        ran
    }
}

/// Every run begins in a well-formed state.
pub proof fn lemma_initial_is_well_formed(dry_run: bool)
    ensures
        well_formed(initial(dry_run)),
        initial(dry_run).attempt == 1,
        initial(dry_run).previous is None,
{
}

/// A step keeps the state well formed. So a command that the safety gate
/// refuses never waits to be run nor runs, and no record is made of it.
pub proof fn lemma_step_keeps_well_formed(s: ControllerView, e: EventView)
    requires
        well_formed(s),
    ensures
        well_formed(step_spec(s, e)),
{
}

/// A dangerous command ends the run at once, with nothing run and nothing
/// remembered.
pub proof fn lemma_dangerous_command_ends_run(s: ControllerView, command: Seq<char>)
    requires
        s.phase is Synthesizing,
    ensures
        gated(s, command, true).phase == PhaseView::Finished(Outcome::Dangerous),
        gated(s, command, true).previous == s.previous,
        gated(s, command, true).attempt == s.attempt,
{
}

/// A run that is over stays as it is, whatever happens.
pub proof fn lemma_finished_is_final(s: ControllerView, e: EventView)
    requires
        s.phase is Finished,
    ensures
        step_spec(s, e) == s,
{
}

/// The counter never goes down and goes up by exactly one at a time: when an
/// attempt that was run did not achieve the goal, and then the record of
/// that attempt takes the place of the one before. In every other step the
/// counter and the record stay.
pub proof fn lemma_counter_moves_by_one(s: ControllerView, e: EventView)
    ensures
        ({
            let next = step_spec(s, e);
            let retried_now = match (s.phase, e) {
                (PhaseView::Executing(_), EventView::Executed(result)) => !result.succeeded,
                (PhaseView::AwaitingVerdict(_), EventView::Verdict(yes)) => !yes,
                _ => false,
            };
            &&& retried_now ==> next.attempt == s.attempt + 1 && next.previous is Some
                && next.previous->Some_0.attempt == (match s.phase {
                PhaseView::AwaitingVerdict(h) => h.attempt,
                _ => s.attempt,
            })
            &&& !retried_now ==> next.attempt == s.attempt && next.previous == s.previous
        }),
{
}

/// No run calls the backend more often than the budget allows.
pub proof fn lemma_syntheses_within_budget(s: ControllerView, events: Seq<EventView>)
    requires
        well_formed(s),
    ensures
        syntheses(s, events) <= syntheses_left(s),
        well_formed(run(s, events)),
    decreases events.len(),
{
    if events.len() > 0 {
        lemma_step_keeps_well_formed(s, events[0]);
        lemma_syntheses_within_budget(step_spec(s, events[0]), events.skip(1));
    }
}

/// From its beginning a run calls the backend at most three times.
pub proof fn lemma_at_most_three_syntheses(dry_run: bool, events: Seq<EventView>)
    ensures
        syntheses(initial(dry_run), events) <= MAX_ATTEMPTS,
{
    lemma_syntheses_within_budget(initial(dry_run), events);
}

/// Three attempts in a row that do not achieve the goal use up the budget:
/// the first two each lead back to a call of the backend, with the counter
/// one higher and the attempt just made remembered; the third ends the run
/// with the budget used up.
pub proof fn lemma_three_unachieved_rounds_end_run(
    first: (Seq<char>, ResultView),
    second: (Seq<char>, ResultView),
    third: (Seq<char>, ResultView),
)
    ensures
        ({
            let s1 = unachieved_round(initial(false), first.0, first.1);
            let s2 = unachieved_round(s1, second.0, second.1);
            let s3 = unachieved_round(s2, third.0, third.1);
            &&& s1.phase is Synthesizing && s1.attempt == 2
            &&& s1.previous == Some(recorded(initial(false), first.0, first.1))
            &&& s2.phase is Synthesizing && s2.attempt == 3
            &&& s2.previous == Some(recorded(s1, second.0, second.1))
            &&& s3.phase == PhaseView::Finished(Outcome::MaxAttempts)
            &&& s3.previous == Some(recorded(s2, third.0, third.1))
        }),
{
}

/// The events of one attempt that is run and exits with a failure: the reply
/// of the backend, the operator's leave, the end of the command.
pub open spec fn failing_attempt(raw: Seq<char>, output: Seq<char>) -> Seq<EventView> {
    seq![
        EventView::Replied(raw),
        EventView::Consent(true),
        EventView::Executed(ResultView { succeeded: false, captured_text: output }),
    ]
}

/// A run over two sequences of events, one after the other, is the run over
/// the second from where the first has led; the calls of the backend add up.
pub proof fn lemma_run_in_two_parts(s: ControllerView, head: Seq<EventView>, tail: Seq<EventView>)
    ensures
        run(s, head + tail) == run(run(s, head), tail),
        syntheses(s, head + tail) == syntheses(s, head) + syntheses(run(s, head), tail),
    decreases head.len(),
{
    if head.len() == 0 {
        assert(head + tail =~= tail);
    } else {
        assert((head + tail)[0] == head[0]);
        assert((head + tail).skip(1) =~= head.skip(1) + tail);
        lemma_run_in_two_parts(step_spec(s, head[0]), head.skip(1), tail);
    }
}

/// Once a run is over, no further event calls the backend.
pub proof fn lemma_no_synthesis_after_the_end(s: ControllerView, events: Seq<EventView>)
    requires
        s.phase is Finished,
    ensures
        syntheses(s, events) == 0,
        run(s, events) == s,
    decreases events.len(),
{
    if events.len() > 0 {
        lemma_no_synthesis_after_the_end(s, events.skip(1));
    }
}

/// One failing attempt calls the backend once and leads to a retry.
pub proof fn lemma_failing_attempt(s: ControllerView, raw: Seq<char>, output: Seq<char>)
    requires
        s.phase is Synthesizing,
        !s.dry_run,
    ensures
        !is_dangerous(clean(raw)) ==> {
            &&& syntheses(s, failing_attempt(raw, output)) == 1
            &&& run(s, failing_attempt(raw, output)) == retried(
                s,
                recorded(s, clean(raw), ResultView { succeeded: false, captured_text: output }),
            )
        },
{
    let events = failing_attempt(raw, output);
    let s1 = step_spec(s, events[0]);
    let s2 = step_spec(s1, events[1]);
    let s3 = step_spec(s2, events[2]);
    let e1 = events.skip(1);
    let e2 = e1.skip(1);
    let e3 = e2.skip(1);
    assert(e1[0] == events[1]);
    assert(e2[0] == events[2]);
    assert(e3.len() == 0);
    assert(run(s3, e3) == s3);
    assert(run(s2, e2) == s3);
    assert(run(s1, e1) == s3);
    assert(syntheses(s3, e3) == 0);
    assert(syntheses(s2, e2) == 0);
    assert(syntheses(s1, e1) == 0);
}

/// With three commands in a row that pass the safety gate, are run and fail,
/// a run calls the backend exactly three times and ends with the budget used
/// up; whatever happens after that, there is no fourth call.
pub proof fn lemma_three_failures_make_three_syntheses(
    first: (Seq<char>, Seq<char>),
    second: (Seq<char>, Seq<char>),
    third: (Seq<char>, Seq<char>),
    more: Seq<EventView>,
)
    ensures
        !is_dangerous(clean(first.0)) && !is_dangerous(clean(second.0)) && !is_dangerous(
            clean(third.0),
        ) ==> {
            let events = failing_attempt(first.0, first.1) + failing_attempt(second.0, second.1)
                + failing_attempt(third.0, third.1);
            &&& syntheses(initial(false), events) == 3
            &&& run(initial(false), events).phase == PhaseView::Finished(Outcome::MaxAttempts)
            &&& syntheses(initial(false), events + more) == 3
            &&& run(initial(false), events + more) == run(initial(false), events)
        },
{
    if !is_dangerous(clean(first.0)) && !is_dangerous(clean(second.0)) && !is_dangerous(
        clean(third.0),
    ) {
        let a = failing_attempt(first.0, first.1);
        let b = failing_attempt(second.0, second.1);
        let c = failing_attempt(third.0, third.1);
        let s0 = initial(false);
        lemma_failing_attempt(s0, first.0, first.1);
        let s1 = run(s0, a);
        lemma_failing_attempt(s1, second.0, second.1);
        let s2 = run(s1, b);
        lemma_failing_attempt(s2, third.0, third.1);
        let s3 = run(s2, c);
        lemma_run_in_two_parts(s0, a, b);
        lemma_run_in_two_parts(s0, a + b, c);
        lemma_run_in_two_parts(s0, a + b + c, more);
        lemma_no_synthesis_after_the_end(s3, more);
    }
}

/// What the backend is told follows the counter, in every language: on the
/// first attempt the user message is made of the task alone; on every later
/// one it holds the command that was run before and what that command printed.
pub proof fn lemma_prompt_follows_attempt(s: ControllerView, language: Seq<char>, task: Seq<char>)
    requires
        well_formed(s),
    ensures
        s.attempt == 1 ==> user_text(language, task, s.previous) == first_user_text(language, task),
        s.attempt > 1 ==> s.previous is Some && contains_text(
            user_text(language, task, s.previous),
            s.previous->Some_0.command,
        ) && contains_text(user_text(language, task, s.previous), s.previous->Some_0.output),
{
    if s.attempt > 1 {
        lemma_retry_text_holds_outcome(language, task, s.previous->Some_0);
    }
}

} // verus!
