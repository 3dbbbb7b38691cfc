//! A deterministic, offline provider for tests. Scripted with a queue of
//! responses; each `complete` call takes the next one and records the request it
//! was given so tests can assert on what was sent.

use std::collections::VecDeque;

use vstd::prelude::*;

use crate::error::{ProviderError, ProviderErrorView};
use crate::provider::{
    completion_view, ModelRequest, ModelResponse, RequestView, ResponseView,
};
use crate::queue::queue_of;

verus! {

broadcast use vstd::string::group_string_axioms;

/// What a script of completions says.
pub open spec fn script_views(script: Seq<Result<ModelResponse, ProviderError>>) -> Seq<
    Result<ResponseView, ProviderErrorView>,
> {
    script.map_values(|result: Result<ModelResponse, ProviderError>| completion_view(result))
}

/// What a sequence of requests says.
pub open spec fn request_views(requests: Seq<ModelRequest>) -> Seq<RequestView> {
    requests.map_values(|request: ModelRequest| request@)
}

/// What a [`FakeProvider`] holds: the rest of its script and the requests so far.
pub struct FakeProviderView {
    pub script: Seq<Result<ResponseView, ProviderErrorView>>,
    pub seen: Seq<RequestView>,
}

impl FakeProviderView {
    /// The result of the next completion.
    pub open spec fn reply(self) -> Result<ResponseView, ProviderErrorView> {
        if self.script.len() > 0 {
            self.script[0]
        } else {
            Err(
                ProviderErrorView::Api {
                    status: 500,
                    body: "FakeProvider script exhausted"@,
                },
            )
        }
    }

    /// The state after a completion of `request`.
    pub open spec fn after(self, request: RequestView) -> FakeProviderView {
        FakeProviderView {
            script: if self.script.len() > 0 {
                self.script.drop_first()
            } else {
                self.script
            },
            seen: self.seen.push(request),
        }
    }

    /// The state after completions of several requests.
    pub open spec fn after_all(self, requests: Seq<RequestView>) -> FakeProviderView
        decreases requests.len(),
    {
        if requests.len() == 0 {
            self
        } else {
            self.after_all(requests.drop_last()).after(requests.last())
        }
    }
}

/// A provider that replays a fixed script of responses.
#[derive(Debug, PartialEq, Eq)]
pub struct FakeProvider {
    responses: VecDeque<Result<ModelResponse, ProviderError>>,
    seen: Vec<ModelRequest>,
}

impl View for FakeProvider {
    type V = FakeProviderView;

    closed spec fn view(&self) -> FakeProviderView {
        FakeProviderView {
            script: script_views(self.responses@),
            seen: request_views(self.seen@),
        }
    }
}

impl FakeProvider {
    /// Build from an ordered script of responses (one consumed per call).
    pub fn new(responses: Vec<Result<ModelResponse, ProviderError>>) -> (provider: Self)
        ensures
            provider@ == (FakeProviderView { script: script_views(responses@), seen: seq![] }),
    {
        let provider = FakeProvider { responses: queue_of(responses), seen: Vec::new() };
        assert(provider@.seen =~= seq![]);
        provider
    }

    /// The requests this provider has received so far, in order.
    pub fn requests(&self) -> (requests: Vec<ModelRequest>)
        ensures
            request_views(requests@) == self@.seen,
    {
        let requests = self.seen.clone();
        assert(request_views(requests@) =~= request_views(self.seen@));
        requests
    }

    /// Record the request and give the next response of the script. Where the script
    /// is over, a server error.
    pub fn complete(&mut self, request: &ModelRequest) -> (result: Result<
        ModelResponse,
        ProviderError,
    >)
        ensures
            final(self)@ == old(self)@.after(request@),
            completion_view(result) == old(self)@.reply(),
    {
        self.seen.push(request.clone());
        assert(self@.seen =~= old(self)@.seen.push(request@));
        match self.responses.pop_front() {
            Some(result) => {
                assert(self@.script =~= old(self)@.script.drop_first());
                result
            },
            None => Err(
                ProviderError::Api {
                    status: 500,
                    body: "FakeProvider script exhausted".to_owned(),
                },
            ),
        }
    }
}

/// The script is replayed in order and every request is recorded: after any
/// requests, the next response is the one at their number in the script, and once
/// the script is over every response is a server error.
pub proof fn law_script_is_replayed_in_order(
    provider: FakeProviderView,
    requests: Seq<RequestView>,
)
    ensures
        provider.after_all(requests).seen == provider.seen + requests,
        requests.len() < provider.script.len() ==> provider.after_all(requests).reply()
            == provider.script[requests.len() as int],
        requests.len() >= provider.script.len() ==> provider.after_all(requests).reply() == Err::<
            ResponseView,
            ProviderErrorView,
        >(
            ProviderErrorView::Api { status: 500, body: "FakeProvider script exhausted"@ },
        ),
{
    lemma_rest_of_the_script(provider, requests);
}

proof fn lemma_rest_of_the_script(provider: FakeProviderView, requests: Seq<RequestView>)
    ensures
        provider.after_all(requests).seen == provider.seen + requests,
        provider.after_all(requests).script == if requests.len() <= provider.script.len() {
            provider.script.skip(requests.len() as int)
        } else {
            seq![]
        },
    decreases requests.len(),
{
    if requests.len() == 0 {
        assert(provider.seen + requests =~= provider.seen);
        assert(provider.script.skip(0) =~= provider.script);
    } else {
        let before = requests.drop_last();
        lemma_rest_of_the_script(provider, before);
        assert((provider.seen + before).push(requests.last()) =~= provider.seen + requests);
        if requests.len() <= provider.script.len() {
            assert(provider.script.skip(before.len() as int).drop_first() =~= provider.script.skip(
                requests.len() as int,
            ));
        } else if before.len() == provider.script.len() {
            assert(provider.script.skip(before.len() as int) =~= seq![]);
        }
    }
}

/// The views of scripts and requests keep every entry at its place.
pub proof fn law_script_views(
    script: Seq<Result<ModelResponse, ProviderError>>,
    requests: Seq<ModelRequest>,
)
    ensures
        script_views(script).len() == script.len(),
        forall|i: int|
            0 <= i < script.len() ==> #[trigger] script_views(script)[i] == completion_view(
                script[i],
            ),
        request_views(requests).len() == requests.len(),
        forall|i: int|
            0 <= i < requests.len() ==> #[trigger] request_views(requests)[i] == requests[i]@,
{
}

} // verus!
