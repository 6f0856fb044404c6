//! The responders: each is asked in turn to answer a request, and may decline.

use crate::models::{body_view, BodyView, DynamicBody, Request, RequestView};
use vstd::prelude::*;

pub mod closure;
pub mod factory_closure;
pub mod gateway;
pub mod replay;

pub use crate::mocks::closure::ClosureMock;
pub use crate::mocks::factory_closure::FactoryClosure;
pub use crate::mocks::gateway::Gateway;
pub use crate::mocks::replay::ReplayMock;

verus! {

/// A responder: something that may answer a request.
pub trait RunMock {
    /// Whether the responder can be asked about `request`. Unless a
    /// responder says otherwise, it can be asked about every request.
    open spec fn ready(&self, request: RequestView) -> bool {
        true
    }

    /// Whether `answer` is a possible outcome of asking the responder about
    /// `request`; `None` stands for declining. Unless a responder says
    /// otherwise, every outcome is possible.
    open spec fn answers(&self, request: RequestView, answer: Option<BodyView>) -> bool {
        true
    }

    /// Asks the responder about `request`. `None` leaves the request to the
    /// next responder.
    fn run_mock(&self, request: &Request) -> (answer: Option<DynamicBody>)
        requires
            self.ready(request@),
        ensures
            self.answers(request@, body_view(answer)),
    ;
}

impl<T: RunMock + ?Sized> RunMock for Box<T> {
    open spec fn ready(&self, request: RequestView) -> bool {
        (**self).ready(request)
    }

    open spec fn answers(&self, request: RequestView, answer: Option<BodyView>) -> bool {
        (**self).answers(request, answer)
    }

    fn run_mock(&self, request: &Request) -> (answer: Option<DynamicBody>) {
        (**self).run_mock(request)
    }
}

} // verus!
