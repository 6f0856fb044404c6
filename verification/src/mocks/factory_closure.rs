//! The responder that has a function made for every request it is asked.

use crate::mocks::closure::converts_to;
use crate::mocks::RunMock;
use crate::models::{BodyView, DynamicBody, Request, RequestView};
use vstd::prelude::*;

verus! {

/// Answers with whatever a function makes of the request; the function is
/// made anew by a factory each time, so that it may own what it captures.
#[verifier::reject_recursive_types(V)]
#[verifier::reject_recursive_types(R)]
pub struct FactoryClosure<V: Into<DynamicBody>, F: Fn() -> R, R: FnOnce(Request) -> Option<V>> {
    closure: F,
}

impl<V: Into<DynamicBody>, F: Fn() -> R, R: FnOnce(Request) -> Option<V>> FactoryClosure<V, F, R> {
    /// The factory that makes the function.
    pub closed spec fn factory(&self) -> F {
        self.closure
    }

    /// A responder that asks what `closure` makes.
    pub fn new(closure: F) -> (mock: Box<FactoryClosure<V, F, R>>)
        ensures
            mock.factory() == closure,
    {
        Box::new(Self { closure })
    }
}

impl<V: Into<DynamicBody>, F: Fn() -> R, R: FnOnce(Request) -> Option<V>> RunMock for FactoryClosure<
    V,
    F,
    R,
> {
    open spec fn ready(&self, request: RequestView) -> bool {
        &&& call_requires(self.factory(), ())
        &&& forall|runner: R, asked: Request|
            call_ensures(self.factory(), (), runner) && asked@ == request ==> call_requires(
                runner,
                (asked,),
            )
    }

    open spec fn answers(&self, request: RequestView, answer: Option<BodyView>) -> bool {
        exists|runner: R, asked: Request, outcome: Option<V>|
            {
                &&& call_ensures(self.factory(), (), runner)
                &&& asked@ == request
                &&& call_ensures(runner, (asked,), outcome)
                &&& converts_to(outcome, answer)
            }
    }

    fn run_mock(&self, request: &Request) -> (answer: Option<DynamicBody>) {
        let runner = (self.closure)();
        let asked = request.clone();
        let outcome = runner(asked);
        match outcome {
            Some(value) => {
                let body: DynamicBody = value.into();
                assert(converts_to(outcome, Some(body@)));
                Some(body)
            },
            None => None,
        }
    }
}

} // verus!
