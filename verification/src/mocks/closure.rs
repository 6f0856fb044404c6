//! The responder that asks a function.

use crate::mocks::RunMock;
use crate::models::{BodyView, DynamicBody, Request, RequestView};
use vstd::prelude::*;

verus! {

/// Whether `answer` is what a responder gives when its function returned
/// `outcome`: it declines when the function did, and else answers with the
/// body that the function's value converts into.
pub open spec fn converts_to<V: Into<DynamicBody>>(
    outcome: Option<V>,
    answer: Option<BodyView>,
) -> bool {
    match outcome {
        None => answer is None,
        Some(value) => exists|body: DynamicBody|
            call_ensures(<V as Into<DynamicBody>>::into, (value,), body) && answer == Some(body@),
    }
}

/// Answers with whatever a function makes of the request.
#[verifier::reject_recursive_types(V)]
pub struct ClosureMock<V: Into<DynamicBody>, F: Fn(Request) -> Option<V>> {
    closure: F,
}

impl<V: Into<DynamicBody>, F: Fn(Request) -> Option<V>> ClosureMock<V, F> {
    /// The function that is asked.
    pub closed spec fn function(&self) -> F {
        self.closure
    }

    /// A responder that asks `closure`.
    pub fn new(closure: F) -> (mock: Box<ClosureMock<V, F>>)
        ensures
            mock.function() == closure,
    {
        Box::new(Self { closure })
    }
}

impl<V: Into<DynamicBody>, F: Fn(Request) -> Option<V>> RunMock for ClosureMock<V, F> {
    open spec fn ready(&self, request: RequestView) -> bool {
        forall|asked: Request| asked@ == request ==> call_requires(self.function(), (asked,))
    }

    open spec fn answers(&self, request: RequestView, answer: Option<BodyView>) -> bool {
        exists|asked: Request, outcome: Option<V>|
            asked@ == request && call_ensures(self.function(), (asked,), outcome) && converts_to(
                outcome,
                answer,
            )
    }

    fn run_mock(&self, request: &Request) -> (answer: Option<DynamicBody>) {
        let asked = request.clone();
        let outcome = (self.closure)(asked);
        match outcome {
            Some(value) => {
                let body: DynamicBody = value.into();
                assert(converts_to(outcome, Some(body@)));
                Some(body)
            },
            None => None,
        }
    }
}

} // verus!
