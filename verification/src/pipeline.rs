//! Fetching the comments of many issues, a bounded number of them at a time.
//!
//! The pipeline decides; its driver does the work. The driver asks for the next action, starts
//! the fetch that it is told to start, waits for one of the running fetches where it is told to
//! wait, and reports each fetch that has ended. Fetches may end in any order. The first one
//! that fails ends the run: what is waiting or running is dropped, and files that were written
//! before stay as they are.

use crate::error::ExportError;
use crate::model::{Comment, Issue, IssueWithComments};
use vstd::prelude::*;

verus! {

/// How many fetches of comments may run at one time.
pub const MAX_PARALLEL_FETCHES: usize = 8;

/// A fetch of comments that is running: the issue, and the ticket that it was started under.
#[derive(Debug)]
pub struct Flight {
    pub ticket: usize,
    pub issue: Issue,
}

/// What the driver is to do next.
#[derive(Debug, PartialEq, Eq)]
pub enum Action {
    /// Start fetching the comments at `url`, and report the outcome under `ticket`.
    Fetch { ticket: usize, url: String },
    /// Nothing can be started: wait until one of the running fetches has ended, and report it.
    Wait,
    /// Nothing is waiting and nothing is running: the run is over.
    Finish,
}

/// An action with its address as a sequence of characters.
pub enum ActionView {
    Fetch { ticket: nat, url: Seq<char> },
    Wait,
    Finish,
}

impl View for Action {
    type V = ActionView;

    open spec fn view(&self) -> ActionView {
        match *self {
            Action::Fetch { ticket, url } => ActionView::Fetch { ticket: ticket as nat, url: url@ },
            Action::Wait => ActionView::Wait,
            Action::Finish => ActionView::Finish,
        }
    }
}

/// What the end of a fetch means for the run.
#[derive(Debug)]
pub enum Completion {
    /// The issue with its comments, to be rendered and written.
    Ready(IssueWithComments),
    /// The fetch failed, and the run with it: this is the error of the run.
    Failed(ExportError),
    /// No fetch is running under that ticket: nothing has changed.
    Ignored,
}

/// The position in `flights` of the fetch with this ticket, or the length of `flights` where
/// none has it.
pub open spec fn slot_of(flights: Seq<Flight>, ticket: usize) -> int
    decreases flights.len(),
{
    if flights.len() == 0 || flights[0].ticket == ticket {
        0
    } else {
        1 + slot_of(flights.drop_first(), ticket)
    }
}

/// `slot_of` is a position in `flights` or its length; no fetch before it has the ticket,
/// and the one at it has.
pub proof fn lemma_slot_of(flights: Seq<Flight>, ticket: usize)
    ensures
        0 <= slot_of(flights, ticket) <= flights.len(),
        forall|j: int| 0 <= j < slot_of(flights, ticket) ==> flights[j].ticket != ticket,
        slot_of(flights, ticket) < flights.len() ==> flights[slot_of(flights, ticket)].ticket
            == ticket,
    decreases flights.len(),
{
    if !(flights.len() == 0 || flights[0].ticket == ticket) {
        let rest = flights.drop_first();
        lemma_slot_of(rest, ticket);
        assert forall|j: int| 0 <= j < slot_of(flights, ticket) implies flights[j].ticket
            != ticket by {
            if j > 0 {
                assert(flights[j] == rest[j - 1]);
            }
        }
    }
}

/// The state of a run.
pub struct PipelineView {
    /// The issues whose comments are still to be fetched, the next one first.
    pub waiting: Seq<Issue>,
    /// The fetches that are running.
    pub in_flight: Seq<Flight>,
    /// How many fetches have been started so far; the next ticket.
    pub started: nat,
    /// Whether a fetch has failed.
    pub failed: bool,
}

impl PipelineView {
    /// The state before anything has been started.
    pub open spec fn init(issues: Seq<Issue>) -> PipelineView {
        PipelineView { waiting: issues, in_flight: Seq::empty(), started: 0, failed: false }
    }

    /// Whether a fetch can be started: the run has not failed, an issue is waiting, and fewer
    /// fetches are running than may.
    pub open spec fn can_start(self) -> bool {
        !self.failed && self.waiting.len() > 0 && self.in_flight.len() < MAX_PARALLEL_FETCHES
    }

    /// What the driver is told to do in this state.
    pub open spec fn action(self) -> ActionView {
        if self.can_start() {
            ActionView::Fetch { ticket: self.started, url: self.waiting[0].comments_url@ }
        } else if self.in_flight.len() > 0 {
            ActionView::Wait
        } else {
            ActionView::Finish
        }
    }

    /// The state after the driver has been told what to do: where a fetch can be started, the
    /// first waiting issue is now in flight, under the next ticket.
    pub open spec fn after_action(self) -> PipelineView {
        if self.can_start() {
            PipelineView {
                waiting: self.waiting.drop_first(),
                in_flight: self.in_flight.push(
                    Flight { ticket: self.started as usize, issue: self.waiting[0] },
                ),
                started: self.started + 1,
                failed: self.failed,
            }
        } else {
            self
        }
    }

    /// Whether a fetch is running under this ticket.
    pub open spec fn is_in_flight(self, ticket: usize) -> bool {
        slot_of(self.in_flight, ticket) < self.in_flight.len()
    }

    /// The issue whose comments are being fetched under this ticket.
    pub open spec fn issue_of(self, ticket: usize) -> Issue
        recommends
            self.is_in_flight(ticket),
    {
        self.in_flight[slot_of(self.in_flight, ticket)].issue
    }

    /// The state after the fetch under `ticket` has ended well: it is no longer in flight.
    pub open spec fn after_success(self, ticket: usize) -> PipelineView {
        if self.is_in_flight(ticket) {
            PipelineView {
                waiting: self.waiting,
                in_flight: self.in_flight.remove(slot_of(self.in_flight, ticket)),
                started: self.started,
                failed: self.failed,
            }
        } else {
            self
        }
    }

    /// The state after the fetch under `ticket` has failed: the run has failed, and nothing is
    /// waiting or in flight any more.
    pub open spec fn after_failure(self, ticket: usize) -> PipelineView {
        if self.is_in_flight(ticket) {
            PipelineView {
                waiting: Seq::empty(),
                in_flight: Seq::empty(),
                started: self.started,
                failed: true,
            }
        } else {
            self
        }
    }

    /// Whether the run is over: nothing is waiting and nothing is in flight.
    pub open spec fn is_finished(self) -> bool {
        self.waiting.len() == 0 && self.in_flight.len() == 0
    }

    /// What holds in every state of a run: no more fetches are in flight than may be; each runs
    /// under a ticket of its own, which has been handed out; after a failure nothing is waiting
    /// or in flight; and the tickets that are still to come fit the machine's numbers.
    pub open spec fn inv(self) -> bool {
        &&& self.in_flight.len() <= MAX_PARALLEL_FETCHES
        &&& self.started + self.waiting.len() <= usize::MAX
        &&& forall|i: int| 0 <= i < self.in_flight.len() ==> (#[trigger] self.in_flight[i]).ticket
            < self.started
        &&& forall|i: int, j: int|
            0 <= i < j < self.in_flight.len() ==> (#[trigger] self.in_flight[i]).ticket != (
            #[trigger] self.in_flight[j]).ticket
        &&& self.failed ==> self.is_finished()
    }
}

/// A run of fetches over the issues of an export.
pub struct Pipeline {
    waiting: Vec<Issue>,
    in_flight: Vec<Flight>,
    started: usize,
    failed: bool,
}

impl View for Pipeline {
    type V = PipelineView;

    closed spec fn view(&self) -> PipelineView {
        PipelineView {
            waiting: self.waiting@,
            in_flight: self.in_flight@,
            started: self.started as nat,
            failed: self.failed,
        }
    }
}

impl Pipeline {
    /// Whether this is a state that a run can be in. `new` makes such a state and every
    /// method keeps it so.
    pub open spec fn wf(&self) -> bool {
        self@.inv()
    }

    /// A run over `issues`, in their order, with nothing started yet.
    pub fn new(issues: Vec<Issue>) -> (pipeline: Pipeline)
        ensures
            pipeline@ == PipelineView::init(issues@),
            pipeline.wf(),
    {
        let count = issues.len();
        proof {
            assert(issues@.len() == count);
            lemma_init(issues@);
        }
        Pipeline { waiting: issues, in_flight: Vec::new(), started: 0, failed: false }
    }

    /// Tells the driver what to do next, and counts a fetch that it is told to start as
    /// running from now on.
    pub fn next_action(&mut self) -> (action: Action)
        requires
            old(self).wf(),
        ensures
            final(self).wf(),
            action@ == old(self)@.action(),
            final(self)@ == old(self)@.after_action(),
    {
        if !self.failed && self.waiting.len() > 0 && self.in_flight.len() < MAX_PARALLEL_FETCHES {
            let ticket = self.started;
            let issue = self.waiting.remove(0);
            self.started = ticket + 1;
            let url = issue.comments_url.clone();
            self.in_flight.push(Flight { ticket, issue });
            assert(self.waiting@ =~= old(self).waiting@.drop_first());
            Action::Fetch { ticket, url }
        } else if self.in_flight.len() > 0 {
            Action::Wait
        } else {
            Action::Finish
        }
    }

    /// Reports that the fetch under `ticket` has ended, with the comments or with an error.
    pub fn complete(
        &mut self,
        ticket: usize,
        outcome: Result<Vec<Comment>, ExportError>,
    ) -> (completion: Completion)
        requires
            old(self).wf(),
        ensures
            final(self).wf(),
            !old(self)@.is_in_flight(ticket) ==> completion is Ignored && final(self)@ == old(
                self,
            )@,
            old(self)@.is_in_flight(ticket) ==> match outcome {
                Ok(comments) => completion == Completion::Ready(
                    IssueWithComments { issue: old(self)@.issue_of(ticket), comments },
                ) && final(self)@ == old(self)@.after_success(ticket),
                Err(error) => completion == Completion::Failed(error) && final(self)@ == old(
                    self,
                )@.after_failure(ticket),
            },
    {
        proof {
            lemma_slot_of(self.in_flight@, ticket);
        }
        let mut slot: usize = 0;
        while slot < self.in_flight.len() && self.in_flight[slot].ticket != ticket
            invariant
                slot <= self.in_flight.len(),
                forall|j: int| 0 <= j < slot ==> self.in_flight@[j].ticket != ticket,
            decreases self.in_flight.len() - slot,
        {
            slot = slot + 1;
        }
        assert(slot == slot_of(self.in_flight@, ticket));
        if slot == self.in_flight.len() {
            return Completion::Ignored;
        }
        match outcome {
            Ok(comments) => {
                let flight = self.in_flight.remove(slot);
                Completion::Ready(IssueWithComments { issue: flight.issue, comments })
            },
            Err(error) => {
                self.waiting.clear();
                self.in_flight.clear();
                self.failed = true;
                Completion::Failed(error)
            },
        }
    }

    /// How many fetches are running.
    pub fn in_flight(&self) -> (count: usize)
        requires
            self.wf(),
        ensures
            count == self@.in_flight.len(),
            count <= MAX_PARALLEL_FETCHES,
    {
        self.in_flight.len()
    }

    /// How many issues are waiting for their fetch.
    pub fn waiting(&self) -> (count: usize)
        ensures
            count == self@.waiting.len(),
    {
        self.waiting.len()
    }

    /// Whether a fetch has failed.
    pub fn has_failed(&self) -> (failed: bool)
        ensures
            failed == self@.failed,
    {
        self.failed
    }
}

/// What can happen to a run: the driver asks what to do next, or it reports that the fetch
/// under a ticket has ended, well or with an error.
pub enum Event {
    Poll,
    Succeeded(usize),
    Failed(usize),
}

impl PipelineView {
    /// The state after one event.
    pub open spec fn step(self, event: Event) -> PipelineView {
        match event {
            Event::Poll => self.after_action(),
            Event::Succeeded(ticket) => self.after_success(ticket),
            Event::Failed(ticket) => self.after_failure(ticket),
        }
    }

    /// The state after a sequence of events.
    pub open spec fn run(self, events: Seq<Event>) -> PipelineView
        decreases events.len(),
    {
        if events.len() == 0 {
            self
        } else {
            self.run(events.drop_last()).step(events.last())
        }
    }

    /// Whether this state belongs to a run over `issues`: the fetches have been started in the
    /// order of `issues`, each under its position as its ticket; until a failure, the issues
    /// from the next ticket on are the ones that wait.
    pub open spec fn follows(self, issues: Seq<Issue>) -> bool {
        &&& self.started <= issues.len()
        &&& !self.failed ==> self.waiting == issues.skip(self.started as int)
        &&& forall|i: int|
            0 <= i < self.in_flight.len() ==> (#[trigger] self.in_flight[i]).issue
                == issues[self.in_flight[i].ticket as int]
    }
}

/// A run begins in a state that meets the invariant.
pub proof fn lemma_init(issues: Seq<Issue>)
    requires
        issues.len() <= usize::MAX,
    ensures
        PipelineView::init(issues).inv(),
        PipelineView::init(issues).follows(issues),
{
    assert(issues.skip(0) =~= issues);
}

/// No event leads out of the states that meet the invariant.
pub proof fn lemma_step(state: PipelineView, issues: Seq<Issue>, event: Event)
    requires
        state.inv(),
        state.follows(issues),
    ensures
        state.step(event).inv(),
        state.step(event).follows(issues),
{
    let next = state.step(event);
    match event {
        Event::Poll => {
            if state.can_start() {
                assert(state.waiting[0] == issues[state.started as int]);
                assert(next.waiting =~= issues.skip(next.started as int));
                assert forall|i: int| 0 <= i < next.in_flight.len() implies (
                #[trigger] next.in_flight[i]).ticket < next.started by {
                    if i < state.in_flight.len() {
                        assert(next.in_flight[i] == state.in_flight[i]);
                    }
                }
                assert forall|i: int, j: int| 0 <= i < j < next.in_flight.len() implies (
                #[trigger] next.in_flight[i]).ticket != (#[trigger] next.in_flight[j]).ticket by {
                    assert(next.in_flight[i] == state.in_flight[i]);
                    if j < state.in_flight.len() {
                        assert(next.in_flight[j] == state.in_flight[j]);
                    }
                }
                assert forall|i: int| 0 <= i < next.in_flight.len() implies (
                #[trigger] next.in_flight[i]).issue == issues[next.in_flight[i].ticket as int] by {
                    if i < state.in_flight.len() {
                        assert(next.in_flight[i] == state.in_flight[i]);
                    }
                }
            }
        },
        Event::Succeeded(ticket) => {
            if state.is_in_flight(ticket) {
                let slot = slot_of(state.in_flight, ticket);
                lemma_slot_of(state.in_flight, ticket);
                assert forall|i: int| 0 <= i < next.in_flight.len() implies (
                #[trigger] next.in_flight[i]).ticket < next.started && next.in_flight[i].issue
                    == issues[next.in_flight[i].ticket as int] by {
                    if i < slot {
                        assert(next.in_flight[i] == state.in_flight[i]);
                    } else {
                        assert(next.in_flight[i] == state.in_flight[i + 1]);
                    }
                }
                assert forall|i: int, j: int| 0 <= i < j < next.in_flight.len() implies (
                #[trigger] next.in_flight[i]).ticket != (#[trigger] next.in_flight[j]).ticket by {
                    let a = if i < slot {
                        i
                    } else {
                        i + 1
                    };
                    let b = if j < slot {
                        j
                    } else {
                        j + 1
                    };
                    assert(next.in_flight[i] == state.in_flight[a]);
                    assert(next.in_flight[j] == state.in_flight[b]);
                }
            }
        },
        Event::Failed(ticket) => {},
    }
}

/// Whatever happens in a run over `issues`, and in whatever order, its state meets the
/// invariant. In particular no more than `MAX_PARALLEL_FETCHES` fetches are in flight at any
/// time, however many issues there are.
pub proof fn lemma_run(issues: Seq<Issue>, events: Seq<Event>)
    requires
        issues.len() <= usize::MAX,
    ensures
        PipelineView::init(issues).run(events).inv(),
        PipelineView::init(issues).run(events).follows(issues),
        PipelineView::init(issues).run(events).in_flight.len() <= MAX_PARALLEL_FETCHES,
    decreases events.len(),
{
    if events.len() == 0 {
        lemma_init(issues);
    } else {
        lemma_run(issues, events.drop_last());
        lemma_step(PipelineView::init(issues).run(events.drop_last()), issues, events.last());
    }
}

/// A run that has failed stays as it is: whatever happens afterwards, no fetch is started, no
/// fetch is in flight, so that no report yields an issue to write, and the driver is told to
/// finish.
pub proof fn lemma_failed_is_final(state: PipelineView, events: Seq<Event>)
    requires
        state.inv(),
        state.failed,
    ensures
        state.run(events) == state,
        state.action() == ActionView::Finish,
        forall|ticket: usize| !state.is_in_flight(ticket),
    decreases events.len(),
{
    if events.len() > 0 {
        lemma_failed_is_final(state, events.drop_last());
    }
}

/// The first failure of a fetch that is in flight ends the run: from then on the state is the
/// failed one, with nothing waiting and nothing in flight, whatever is reported later.
pub proof fn lemma_fail_fast(state: PipelineView, ticket: usize, later: Seq<Event>)
    requires
        state.inv(),
        state.is_in_flight(ticket),
    ensures
        state.after_failure(ticket).failed,
        state.after_failure(ticket).is_finished(),
        state.after_failure(ticket).run(later) == state.after_failure(ticket),
        state.after_failure(ticket).run(later).action() == ActionView::Finish,
{
    lemma_failed_is_final(state.after_failure(ticket), later);
}

/// The driver is told to finish exactly when nothing is waiting and nothing is in flight.
pub proof fn lemma_finish(state: PipelineView)
    requires
        state.inv(),
    ensures
        state.action() == ActionView::Finish <==> state.is_finished(),
        state.action() is Fetch <==> state.can_start(),
{
}

} // verus!
