//! The responder that answers from a list of recorded exchanges.

use crate::mocks::RunMock;
use crate::models::{body_view, BodyView, DynamicBody, Replay, ReplayView, Request, RequestView};
use vstd::prelude::*;

verus! {

/// What a list of replays holds.
pub open spec fn replay_views(replays: Seq<Replay>) -> Seq<ReplayView> {
    replays.map_values(|replay: Replay| replay@)
}

/// Whether entry `at` of `store` matches `request` and none before it does.
pub open spec fn is_first_match(store: Seq<ReplayView>, request: RequestView, at: int) -> bool {
    &&& 0 <= at < store.len()
    &&& store[at].matches(request)
    &&& forall|before: int| 0 <= before < at ==> !(#[trigger] store[before]).matches(request)
}

/// The answer of the first entry of `store` that matches `request`.
pub open spec fn replay_answer(store: Seq<ReplayView>, request: RequestView) -> Option<BodyView> {
    if exists|at: int| is_first_match(store, request, at) {
        Some(store[choose|at: int| is_first_match(store, request, at)].answer)
    } else {
        None
    }
}

/// At most one entry is the first to match.
pub proof fn lemma_first_match_unique(
    store: Seq<ReplayView>,
    request: RequestView,
    at: int,
    other: int,
)
    requires
        is_first_match(store, request, at),
        is_first_match(store, request, other),
    ensures
        at == other,
{
    if at < other {
        assert(!store[at].matches(request));
    } else if other < at {
        assert(!store[other].matches(request));
    }
}

/// An entry that is the first to match gives the answer.
pub proof fn lemma_first_match_answers(store: Seq<ReplayView>, request: RequestView, at: int)
    requires
        is_first_match(store, request, at),
    ensures
        replay_answer(store, request) == Some(store[at].answer),
{
    let chosen = choose|at: int| is_first_match(store, request, at);
    lemma_first_match_unique(store, request, at, chosen);
}

/// A request satisfies itself as a pattern.
pub proof fn lemma_request_admits_itself(request: RequestView)
    ensures
        request.admits(request),
{
}

/// What a store answers once an exchange is recorded behind it: what it
/// answered before, and where it had no answer, the answer of the new
/// exchange if that one matches.
pub proof fn lemma_answer_after_push(
    store: Seq<ReplayView>,
    entry: ReplayView,
    request: RequestView,
)
    ensures
        replay_answer(store.push(entry), request) == match replay_answer(store, request) {
            Some(answer) => Some(answer),
            None => if entry.matches(request) {
                Some(entry.answer)
            } else {
                None
            },
        },
{
    let extended = store.push(entry);
    if exists|at: int| is_first_match(store, request, at) {
        let at = choose|at: int| is_first_match(store, request, at);
        assert(is_first_match(extended, request, at)) by {
            assert(extended[at] == store[at]);
            assert forall|before: int| 0 <= before < at implies !(#[trigger] extended[before]).matches(
                request,
            ) by {
                assert(extended[before] == store[before]);
            }
        }
        lemma_first_match_answers(extended, request, at);
    } else {
        assert forall|before: int| 0 <= before < store.len() implies !(
        #[trigger] extended[before]).matches(request) by {
            assert(extended[before] == store[before]);
            if store[before].matches(request) {
                lemma_some_match_has_first(store, request, before);
            }
        }
        if entry.matches(request) {
            assert(extended[store.len() as int] == entry);
            assert(is_first_match(extended, request, store.len() as int));
            lemma_first_match_answers(extended, request, store.len() as int);
        } else {
            assert forall|at: int| !is_first_match(extended, request, at) by {
                if is_first_match(extended, request, at) {
                    if at < store.len() {
                        assert(!extended[at].matches(request));
                    } else {
                        assert(extended[at] == entry);
                    }
                }
            }
        }
    }
}

/// Where some entry up to `upto` matches, one entry is the first to match.
pub proof fn lemma_some_match_has_first(store: Seq<ReplayView>, request: RequestView, upto: int)
    requires
        0 <= upto < store.len(),
        store[upto].matches(request),
    ensures
        exists|at: int| is_first_match(store, request, at),
    decreases upto,
{
    if exists|before: int| 0 <= before < upto && (#[trigger] store[before]).matches(request) {
        let before = choose|before: int| 0 <= before < upto && (#[trigger] store[before]).matches(
            request,
        );
        lemma_some_match_has_first(store, request, before);
    } else {
        assert(is_first_match(store, request, upto));
    }
}

/// Capture and replay: once the exchange of `request` and `answer` is
/// recorded behind a store in which nothing matches `request`, replaying
/// the store for the same request gives exactly `answer`.
pub proof fn lemma_capture_then_replay(
    store: Seq<ReplayView>,
    request: RequestView,
    answer: BodyView,
)
    requires
        forall|at: int| 0 <= at < store.len() ==> !(#[trigger] store[at]).matches(request),
    ensures
        replay_answer(store.push(ReplayView { pattern: request, answer }), request) == Some(answer),
{
    lemma_request_admits_itself(request);
    lemma_answer_after_push(store, ReplayView { pattern: request, answer }, request);
}

/// Answers from a fixed list of replays: the first that matches wins.
pub struct ReplayMock {
    replays: Vec<Replay>,
}

impl View for ReplayMock {
    type V = Seq<ReplayView>;

    closed spec fn view(&self) -> Seq<ReplayView> {
        replay_views(self.replays@)
    }
}

impl ReplayMock {
    /// A responder over `replays`, which are tried in the order given.
    pub fn new(replays: Vec<Replay>) -> (mock: Box<Self>)
        ensures
            mock@ == replay_views(replays@),
    {
        Box::new(Self { replays })
    }
}

impl RunMock for ReplayMock {
    open spec fn ready(&self, request: RequestView) -> bool {
        true
    }

    open spec fn answers(&self, request: RequestView, answer: Option<BodyView>) -> bool {
        answer == replay_answer(self@, request)
    }

    fn run_mock(&self, request: &Request) -> (answer: Option<DynamicBody>) {
        let mut at: usize = 0;
        while at < self.replays.len()
            invariant
                at <= self.replays.len(),
                forall|before: int| 0 <= before < at ==> !(#[trigger] self@[before]).matches(request@),
            decreases self.replays.len() - at,
        {
            if self.replays[at].matches_request(request) {
                let answer = match &self.replays[at] {
                    Replay { then, .. } => then.clone(),
                };
                proof {
                    lemma_first_match_answers(self@, request@, at as int);
                }
                return Some(answer);
            }
            at += 1;
        }
        None
    }
}

} // verus!
