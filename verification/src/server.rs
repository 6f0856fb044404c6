//! The registry of responders behind one listening address.
//!
//! The order of the responders is their priority: the first registered is the
//! first asked. Binding the address and serving it is left to the embedding
//! program, which hands in the address as text.

use crate::dispatch::{dispatch, dispatched, ResultType};
use crate::mocks::RunMock;
use crate::models::Request;
use vstd::prelude::*;
use vstd::string::StringExecFns;

verus! {

/// Whether `kept` is what is left of `all` when `filter` is asked about each
/// element in turn and those it refuses leave: the elements it accepted, in
/// their old order.
pub open spec fn retained<H, F: Fn(&H) -> bool>(all: Seq<H>, kept: Seq<H>, filter: F) -> bool
    decreases all.len(),
{
    if all.len() == 0 {
        kept.len() == 0
    } else {
        ||| {
            &&& call_ensures(filter, (&all.last(),), true)
            &&& kept.len() > 0
            &&& kept.last() == all.last()
            &&& retained(all.drop_last(), kept.drop_last(), filter)
        }
        ||| {
            &&& call_ensures(filter, (&all.last(),), false)
            &&& retained(all.drop_last(), kept, filter)
        }
    }
}

/// Whether `picks` names, in rising order, the places in `all` from which the
/// elements of `kept` come.
pub open spec fn picks_from<H>(all: Seq<H>, kept: Seq<H>, picks: Seq<int>) -> bool {
    &&& picks.len() == kept.len()
    &&& forall|at: int| 0 <= at < picks.len() ==> 0 <= #[trigger] picks[at] < all.len()
    &&& forall|at: int| 0 <= at < picks.len() ==> all[#[trigger] picks[at]] == kept[at]
    &&& forall|at: int, later: int|
        0 <= at < later < picks.len() ==> #[trigger] picks[at] < #[trigger] picks[later]
}

/// Filtering keeps the order: what is retained comes from rising places of
/// what there was, each of them accepted by the filter, so no two responders
/// change their relative position.
pub proof fn lemma_retained_keeps_order<H, F: Fn(&H) -> bool>(
    all: Seq<H>,
    kept: Seq<H>,
    filter: F,
) -> (picks: Seq<int>)
    requires
        retained(all, kept, filter),
    ensures
        picks_from(all, kept, picks),
        forall|at: int| 0 <= at < kept.len() ==> call_ensures(filter, (&#[trigger] kept[at],), true),
    decreases all.len(),
{
    if all.len() == 0 {
        Seq::empty()
    } else if call_ensures(filter, (&all.last(),), true) && kept.len() > 0 && kept.last()
        == all.last() && retained(all.drop_last(), kept.drop_last(), filter) {
        let earlier = lemma_retained_keeps_order(all.drop_last(), kept.drop_last(), filter);
        let picks = earlier.push(all.len() - 1);
        assert forall|at: int| 0 <= at < picks.len() implies all[#[trigger] picks[at]]
            == kept[at] by {
            if at < earlier.len() {
                assert(all.drop_last()[earlier[at]] == kept.drop_last()[at]);
            }
        }
        assert forall|at: int| 0 <= at < kept.len() implies call_ensures(
            filter,
            (&#[trigger] kept[at],),
            true,
        ) by {
            if at < kept.len() - 1 {
                assert(kept.drop_last()[at] == kept[at]);
            }
        }
        picks
    } else {
        let picks = lemma_retained_keeps_order(all.drop_last(), kept, filter);
        assert forall|at: int| 0 <= at < picks.len() implies all[#[trigger] picks[at]]
            == kept[at] by {
            assert(all.drop_last()[picks[at]] == kept[at]);
        }
        picks
    }
}

/// An ordered list of responders and the address they are served at.
pub struct MockServer<H> {
    mocks: Vec<H>,
    address: String,
}

impl<H> MockServer<H> {
    /// The responders, in the order in which they are asked.
    pub closed spec fn responders(&self) -> Seq<H> {
        self.mocks@
    }

    /// The address the server listens at, as `host:port`.
    pub closed spec fn place(&self) -> Seq<char> {
        self.address@
    }

    /// The address the server listens at, as `host:port`.
    pub fn address(&self) -> (address: &str)
        ensures
            address@ == self.place(),
    {
        self.address.as_str()
    }

    /// A server at `address` with no responders yet.
    pub fn new(address: String) -> (server: Self)
        ensures
            server.responders() == Seq::<H>::empty(),
            server.place() == address@,
    {
        MockServer { mocks: Vec::new(), address }
    }

    /// Registers `mock` behind the responders already there.
    pub fn with_mock(self, mock: H) -> (server: Self)
        ensures
            server.responders() == self.responders().push(mock),
            server.place() == self.place(),
    {
        let mut server = self;
        server.mocks.push(mock);
        server
    }

    /// The address of `path` on this server.
    pub fn url(&self, path: &str) -> (url: String)
        ensures
            url@ == "http://"@ + self.place() + "/"@ + path@,
    {
        let mut url = "http://".to_owned();
        url.append(self.address.as_str());
        url.append("/");
        url.append(path);
        url
    }

    /// Keeps the responders that `filter` accepts, in their order, and drops
    /// the others.
    pub fn filter_remove_mock<Filter: Fn(&H) -> bool>(self, filter: Filter) -> (server: Self)
        requires
            forall|at: int|
                0 <= at < self.responders().len() ==> #[trigger] call_requires(
                    filter,
                    (&self.responders()[at],),
                ),
        ensures
            retained(self.responders(), server.responders(), filter),
            server.place() == self.place(),
    {
        let MockServer { mocks, address } = self;
        let ghost all = mocks@;
        assert(all == self.responders());
        let mut rest = mocks;
        let mut kept: Vec<H> = Vec::new();
        while rest.len() > 0
            invariant
                rest.len() <= all.len(),
                rest@ == all.skip(all.len() - rest.len()),
                retained(all.take(all.len() - rest.len()), kept@, filter),
                forall|at: int| 0 <= at < all.len() ==> #[trigger] call_requires(filter, (&all[at],)),
            decreases rest.len(),
        {
            let ghost done = all.len() - rest.len();
            let ghost kept_before = kept@;
            assert(rest@[0] == all[done]);
            let mock = rest.remove(0);
            assert(rest@ =~= all.skip(done + 1));
            assert(all.take(done + 1).drop_last() =~= all.take(done));
            assert(all.take(done + 1).last() == mock);
            if filter(&mock) {
                kept.push(mock);
                assert(kept@.drop_last() =~= kept_before);
            }
        }
        assert(all.take(all.len() as int) =~= all);
        MockServer { mocks: kept, address }
    }

    /// The responders as they stand, in the order in which they are asked.
    pub fn registered(&self) -> (mocks: &Vec<H>)
        ensures
            mocks@ == self.responders(),
    {
        &self.mocks
    }
}

impl<H: Clone> MockServer<H> {
    /// A copy of the responders as they stand, for a dispatch to work on
    /// while others register: each responder is a clone of the one at its
    /// place.
    pub fn snapshot(&self) -> (mocks: Vec<H>)
        ensures
            mocks.len() == self.responders().len(),
            forall|at: int|
                0 <= at < mocks.len() ==> cloned(self.responders()[at], #[trigger] mocks@[at]),
    {
        self.mocks.clone()
    }
}

impl<H: RunMock> MockServer<H> {
    /// Dispatches `request` over the responders as they stand.
    pub fn dispatch(&self, request: &Request) -> (result: ResultType)
        requires
            forall|at: int|
                0 <= at < self.responders().len() ==> (#[trigger] self.responders()[at]).ready(
                    request@,
                ),
        ensures
            dispatched(self.responders(), request@, result@),
    {
        dispatch(&self.mocks, request)
    }
}

} // verus!
