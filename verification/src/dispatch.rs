//! The dispatch engine: the responders of a snapshot are asked one after
//! another, and the first answer ends the dispatch.
//!
//! [`Dispatch`] holds the decisions alone, for a caller that has to wait for
//! its responders; [`router`] drives it over responders that answer at once.

use crate::mocks::RunMock;
use crate::models::{body_view, BodyView, DynamicBody, Method, Request, RequestView};
use vstd::prelude::*;

verus! {

/// How a dispatch ended.
#[derive(Debug, PartialEq)]
pub enum ResultType {
    /// A responder answered.
    Matched {
        /// The answer.
        value: DynamicBody,
    },
    /// Every responder declined.
    NotFound,
}

/// What the end of a dispatch holds.
pub enum ResultView {
    /// A responder answered.
    Matched {
        /// The answer.
        value: BodyView,
    },
    /// Every responder declined.
    NotFound,
}

impl View for ResultType {
    type V = ResultView;

    open spec fn view(&self) -> ResultView {
        match self {
            ResultType::Matched { value } => ResultView::Matched { value: value@ },
            ResultType::NotFound => ResultView::NotFound,
        }
    }
}

/// Whether `outcomes[at]` is an answer and everything before it a refusal.
pub open spec fn is_first_answer(outcomes: Seq<Option<BodyView>>, at: int) -> bool {
    &&& 0 <= at < outcomes.len()
    &&& outcomes[at] is Some
    &&& forall|before: int| 0 <= before < at ==> (#[trigger] outcomes[before]) is None
}

/// How a dispatch ends when the responders, asked in order, would give
/// `outcomes`: with the first answer, or not found if there is none.
pub open spec fn resolved(outcomes: Seq<Option<BodyView>>) -> ResultView {
    if exists|at: int| is_first_answer(outcomes, at) {
        ResultView::Matched { value: outcomes[choose|at: int| is_first_answer(outcomes, at)]->0 }
    } else {
        ResultView::NotFound
    }
}

/// How many responders a dispatch asks when they would give `outcomes`: all
/// up to the first that answers.
pub open spec fn consulted(outcomes: Seq<Option<BodyView>>) -> int {
    if exists|at: int| is_first_answer(outcomes, at) {
        (choose|at: int| is_first_answer(outcomes, at)) + 1
    } else {
        outcomes.len() as int
    }
}

/// At most one outcome is the first answer.
pub proof fn lemma_first_answer_unique(outcomes: Seq<Option<BodyView>>, at: int, other: int)
    requires
        is_first_answer(outcomes, at),
        is_first_answer(outcomes, other),
    ensures
        at == other,
{
    if at < other {
        assert(outcomes[at] is None);
    } else if other < at {
        assert(outcomes[other] is None);
    }
}

/// The first answer wins: when the outcome at `at` is an answer and every
/// outcome before it a refusal, the dispatch ends with that answer, whatever
/// the outcomes behind it, and asks no responder behind `at`.
pub proof fn lemma_first_answer_wins(outcomes: Seq<Option<BodyView>>, at: int)
    requires
        is_first_answer(outcomes, at),
    ensures
        resolved(outcomes) == (ResultView::Matched { value: outcomes[at]->0 }),
        consulted(outcomes) == at + 1,
{
    let chosen = choose|at: int| is_first_answer(outcomes, at);
    lemma_first_answer_unique(outcomes, at, chosen);
}

/// When every responder declines, the dispatch ends with not found, having
/// asked them all.
pub proof fn lemma_all_declined(outcomes: Seq<Option<BodyView>>)
    requires
        forall|at: int| 0 <= at < outcomes.len() ==> (#[trigger] outcomes[at]) is None,
    ensures
        resolved(outcomes) == ResultView::NotFound,
        consulted(outcomes) == outcomes.len(),
{
}

/// What a dispatch ends with depends on the outcomes it asked for alone: two
/// runs that agree on the first `consulted` outcomes end alike.
pub proof fn lemma_later_responders_ignored(
    outcomes: Seq<Option<BodyView>>,
    other: Seq<Option<BodyView>>,
)
    requires
        consulted(outcomes) <= other.len(),
        forall|at: int| 0 <= at < consulted(outcomes) ==> outcomes[at] == other[at],
        resolved(outcomes) is Matched,
    ensures
        resolved(other) == resolved(outcomes),
        consulted(other) == consulted(outcomes),
{
    let first = choose|at: int| is_first_answer(outcomes, at);
    assert(is_first_answer(other, first)) by {
        assert forall|before: int| 0 <= before < first implies (#[trigger] other[before]) is None by {
            assert(outcomes[before] is None);
        }
    }
    lemma_first_answer_wins(other, first);
}

/// The step a dispatch takes next.
#[derive(Debug, PartialEq)]
pub enum Step {
    /// Ask the responder at `index` of the snapshot, and report its outcome.
    Ask {
        /// The position of the responder in the snapshot.
        index: usize,
    },
    /// The dispatch has ended.
    Done {
        /// How it ended.
        result: ResultType,
    },
}

/// What a step holds.
pub enum StepView {
    /// Ask the responder at `index`.
    Ask {
        /// The position of the responder in the snapshot.
        index: int,
    },
    /// The dispatch has ended.
    Done {
        /// How it ended.
        result: ResultView,
    },
}

impl View for Step {
    type V = StepView;

    open spec fn view(&self) -> StepView {
        match self {
            Step::Ask { index } => StepView::Ask { index: *index as int },
            Step::Done { result } => StepView::Done { result: result@ },
        }
    }
}

/// The step that follows when `outcomes` have come from the first responders
/// of a snapshot of `responders`: the dispatch is done once an answer has
/// come or nobody is left to ask, and else asks the next responder.
pub open spec fn next_step(responders: int, outcomes: Seq<Option<BodyView>>) -> StepView {
    match resolved(outcomes) {
        ResultView::Matched { value } => StepView::Done { result: ResultView::Matched { value } },
        ResultView::NotFound => if outcomes.len() < responders {
            StepView::Ask { index: outcomes.len() as int }
        } else {
            StepView::Done { result: ResultView::NotFound }
        },
    }
}

/// The progress of one dispatch over a snapshot of responders.
pub struct Dispatch {
    total: usize,
    next: usize,
    ended: bool,
    seen: Ghost<Seq<Option<BodyView>>>,
}

impl Dispatch {
    /// The number of responders in the snapshot.
    pub closed spec fn responders(&self) -> int {
        self.total as int
    }

    /// The outcomes taken so far, in the order of the responders.
    pub closed spec fn outcomes(&self) -> Seq<Option<BodyView>> {
        self.seen@
    }

    /// Whether the dispatch has ended.
    pub closed spec fn ended(&self) -> bool {
        self.ended
    }

    /// Whether the state is one that a dispatch can reach. Every state is.
    #[verifier::type_invariant]
    pub closed spec fn well_formed(&self) -> bool {
        &&& self.next == self.seen@.len()
        &&& self.next <= self.total
        &&& self.ended == (next_step(self.total as int, self.seen@) is Done)
        &&& forall|at: int| 0 <= at < self.seen@.len() - 1 ==> (#[trigger] self.seen@[at]) is None
    }

    /// In a state that can be reached, no more outcomes were taken than there
    /// are responders, only the last of them can be an answer, and the
    /// dispatch has ended exactly when no step is left but to be done. A
    /// dispatch that has ended took the outcomes of the responders it had to
    /// ask, and of no other.
    pub proof fn lemma_reachable(&self)
        requires
            self.well_formed(),
        ensures
            self.outcomes().len() <= self.responders(),
            self.ended() == (next_step(self.responders(), self.outcomes()) is Done),
            forall|at: int|
                0 <= at < self.outcomes().len() - 1 ==> (#[trigger] self.outcomes()[at]) is None,
            !self.ended() ==> forall|at: int|
                0 <= at < self.outcomes().len() ==> (#[trigger] self.outcomes()[at]) is None,
            self.ended() ==> consulted(self.outcomes()) == self.outcomes().len(),
    {
        let outcomes = self.outcomes();
        if outcomes.len() > 0 && outcomes.last() is Some {
            lemma_first_answer_wins(outcomes, outcomes.len() - 1);
        } else {
            lemma_all_declined(outcomes);
        }
    }

    /// Tells whether the dispatch has ended.
    pub fn has_ended(&self) -> (ended: bool)
        ensures
            ended == self.ended(),
    {
        self.ended
    }

    /// Begins a dispatch over a snapshot of `responders` responders.
    pub fn begin(responders: usize) -> (started: (Dispatch, Step))
        ensures
            started.0.well_formed(),
            started.0.responders() == responders,
            started.0.outcomes() == Seq::<Option<BodyView>>::empty(),
            started.0.ended() == (started.1 is Done),
            started.1@ == next_step(responders as int, started.0.outcomes()),
    {
        let seen = Ghost(Seq::<Option<BodyView>>::empty());
        if responders == 0 {
            (
                Dispatch { total: 0, next: 0, ended: true, seen },
                Step::Done { result: ResultType::NotFound },
            )
        } else {
            (Dispatch { total: responders, next: 0, ended: false, seen }, Step::Ask { index: 0 })
        }
    }

    /// Takes the outcome of the responder that was asked. An answer ends the
    /// dispatch with that answer, and no responder is asked after it; a refusal
    /// moves on to the next responder, or ends the dispatch if there is none.
    pub fn advance(&mut self, outcome: Option<DynamicBody>) -> (step: Step)
        requires
            !old(self).ended(),
        ensures
            final(self).well_formed(),
            final(self).responders() == old(self).responders(),
            final(self).outcomes() == old(self).outcomes().push(body_view(outcome)),
            final(self).ended() == (step is Done),
            step@ == next_step(final(self).responders(), final(self).outcomes()),
            step@ == match outcome {
                Some(value) => StepView::Done { result: ResultView::Matched { value: value@ } },
                None => if final(self).outcomes().len() < final(self).responders() {
                    StepView::Ask { index: final(self).outcomes().len() as int }
                } else {
                    StepView::Done { result: ResultView::NotFound }
                },
            },
    {
        proof {
            use_type_invariant(&*self);
            self.lemma_reachable();
        }
        let ghost before = self.seen@;
        let ghost after = before.push(body_view(outcome));
        let total = self.total;
        let next = self.next + 1;
        match outcome {
            Some(value) => {
                proof {
                    lemma_first_answer_wins(after, before.len() as int);
                }
                *self = Dispatch { total, next, ended: true, seen: Ghost(after) };
                Step::Done { result: ResultType::Matched { value } }
            },
            None => {
                proof {
                    lemma_all_declined(after);
                }
                *self = Dispatch { total, next, ended: next >= total, seen: Ghost(after) };
                if next < total {
                    Step::Ask { index: next }
                } else {
                    Step::Done { result: ResultType::NotFound }
                }
            },
        }
    }
}

/// Whether `result` is a possible end of dispatching `request` over `mocks`:
/// an answer of one responder before which every responder declined, or not
/// found with every responder declining.
pub open spec fn dispatched<H: RunMock>(mocks: Seq<H>, request: RequestView, result: ResultView) -> bool {
    match result {
        ResultView::Matched { value } => exists|at: int|
            {
                &&& 0 <= at < mocks.len()
                &&& (#[trigger] mocks[at]).answers(request, Some(value))
                &&& forall|before: int|
                    0 <= before < at ==> (#[trigger] mocks[before]).answers(request, None)
            },
        ResultView::NotFound => forall|at: int|
            0 <= at < mocks.len() ==> (#[trigger] mocks[at]).answers(request, None),
    }
}

/// A dispatch that took `outcomes` from the first responders of `mocks`, of
/// which only the last may be an answer, and then had no step left but to be
/// done, ended as the responders allow.
pub proof fn lemma_resolved_is_dispatched<H: RunMock>(
    mocks: Seq<H>,
    request: RequestView,
    outcomes: Seq<Option<BodyView>>,
)
    requires
        outcomes.len() <= mocks.len(),
        forall|at: int| 0 <= at < outcomes.len() - 1 ==> (#[trigger] outcomes[at]) is None,
        forall|at: int|
            0 <= at < outcomes.len() ==> (#[trigger] mocks[at]).answers(request, outcomes[at]),
        next_step(mocks.len() as int, outcomes) is Done,
    ensures
        dispatched(mocks, request, resolved(outcomes)),
{
    if outcomes.len() > 0 && outcomes.last() is Some {
        let last = outcomes.len() - 1;
        lemma_first_answer_wins(outcomes, last);
        assert(mocks[last].answers(request, outcomes[last]));
        assert forall|before: int| 0 <= before < last implies (#[trigger] mocks[before]).answers(
            request,
            None,
        ) by {
            assert(outcomes[before] is None);
        }
    } else {
        lemma_all_declined(outcomes);
        assert forall|at: int| 0 <= at < mocks.len() implies (#[trigger] mocks[at]).answers(
            request,
            None,
        ) by {
            assert(outcomes[at] is None);
        }
    }
}

/// Priority: where the responder at `at` can only answer `request` with
/// `value`, and every responder before it can only decline, a dispatch ends
/// with `value`, whatever the responders behind `at` would do.
pub proof fn lemma_priority<H: RunMock>(
    mocks: Seq<H>,
    request: RequestView,
    at: int,
    value: BodyView,
    result: ResultView,
)
    requires
        0 <= at < mocks.len(),
        forall|answer: Option<BodyView>|
            mocks[at].answers(request, answer) ==> answer == Some(value),
        forall|before: int, answer: Option<BodyView>|
            0 <= before < at && #[trigger] mocks[before].answers(request, answer) ==> answer
                is None,
        dispatched(mocks, request, result),
    ensures
        result == (ResultView::Matched { value }),
{
    match result {
        ResultView::Matched { value: found } => {
            let from = choose|from: int|
                {
                    &&& 0 <= from < mocks.len()
                    &&& (#[trigger] mocks[from]).answers(request, Some(found))
                    &&& forall|before: int|
                        0 <= before < from ==> (#[trigger] mocks[before]).answers(request, None)
                };
            if from < at {
                assert(mocks[from].answers(request, Some(found)));
            } else if at < from {
                assert(mocks[at].answers(request, None));
            }
        },
        ResultView::NotFound => {
            assert(mocks[at].answers(request, None));
        },
    }
}

/// Fall-through: where every responder can only decline `request`, a
/// dispatch ends with not found.
pub proof fn lemma_fall_through<H: RunMock>(mocks: Seq<H>, request: RequestView, result: ResultView)
    requires
        forall|at: int, answer: Option<BodyView>|
            0 <= at < mocks.len() && #[trigger] mocks[at].answers(request, answer) ==> answer
                is None,
        dispatched(mocks, request, result),
    ensures
        result == ResultView::NotFound,
{
    if let ResultView::Matched { value } = result {
        let from = choose|from: int|
            {
                &&& 0 <= from < mocks.len()
                &&& (#[trigger] mocks[from]).answers(request, Some(value))
                &&& forall|before: int|
                    0 <= before < from ==> (#[trigger] mocks[before]).answers(request, None)
            };
        assert(mocks[from].answers(request, Some(value)));
    }
}

/// Dispatches `request` over the snapshot `mocks`: the responders are asked
/// in order, and the first answer is the result.
pub fn dispatch<H: RunMock>(mocks: &Vec<H>, request: &Request) -> (result: ResultType)
    requires
        forall|at: int| 0 <= at < mocks.len() ==> (#[trigger] mocks[at]).ready(request@),
    ensures
        dispatched(mocks@, request@, result@),
{
    let (mut progress, mut step) = Dispatch::begin(mocks.len());
    loop
        invariant
            progress.well_formed(),
            progress.responders() == mocks.len(),
            forall|at: int| 0 <= at < mocks.len() ==> (#[trigger] mocks[at]).ready(request@),
            progress.ended() == (step is Done),
            step@ == next_step(progress.responders(), progress.outcomes()),
            forall|at: int|
                0 <= at < progress.outcomes().len() ==> (#[trigger] mocks[at]).answers(
                    request@,
                    progress.outcomes()[at],
                ),
        decreases mocks.len() - progress.outcomes().len(),
    {
        match step {
            Step::Ask { index } => {
                let outcome = mocks[index].run_mock(request);
                step = progress.advance(outcome);
            },
            Step::Done { result } => {
                proof {
                    progress.lemma_reachable();
                    lemma_resolved_is_dispatched(mocks@, request@, progress.outcomes());
                }
                return result;
            },
        }
    }
}

/// Builds the request from its parts and dispatches it over the snapshot
/// `mocks`.
pub fn router<H: RunMock>(
    mocks: &Vec<H>,
    path: String,
    queries: Option<String>,
    method: Method,
    body: Option<DynamicBody>,
) -> (result: ResultType)
    requires
        forall|at: int|
            0 <= at < mocks.len() ==> (#[trigger] mocks[at]).ready(
                (Request { path, queries, method, body })@,
            ),
    ensures
        dispatched(mocks@, (Request { path, queries, method, body })@, result@),
{
    let request = Request { method, queries, path, body };
    dispatch(mocks, &request)
}

} // verus!
