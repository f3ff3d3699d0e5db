//! What the gateway does with a request: answer at once, or search first.

use crate::backend::{classified, classify, search_path, search_path_of, Outcome, OutcomeView};
use crate::codec::json_text;
use crate::json::{Json, JsonValue};
use crate::response::{Response, ResponseView};
use crate::shaper::Shaper;
use vstd::prelude::*;

verus! {

/// A search to run against the backend, and how its result becomes the
/// response.
#[derive(Clone, Debug, PartialEq, Eq)]
pub struct Search {
    pub query: Json,
    pub shaper: Shaper,
}

/// What a search says.
pub struct SearchView {
    pub query: JsonValue,
    pub shaper: Shaper,
}

impl View for Search {
    type V = SearchView;

    open spec fn view(&self) -> SearchView {
        SearchView { query: self.query@, shaper: self.shaper }
    }
}

/// What to do with a request.
#[derive(Clone, Debug, PartialEq, Eq)]
pub enum Step {
    /// Answer with this response; the backend is not asked.
    Respond(Response),
    /// Run this search and answer with what its shaper makes of the outcome.
    Search(Search),
}

/// What a step says.
pub enum StepView {
    Respond(ResponseView),
    Search(SearchView),
}

impl View for Step {
    type V = StepView;

    open spec fn view(&self) -> StepView {
        match self {
            Step::Respond(response) => StepView::Respond(response@),
            Step::Search(search) => StepView::Search(search@),
        }
    }
}

/// The response that a search with the given outcome ends in. There is
/// none where a successful reply carries a body that is not JSON.
pub open spec fn concluded(shaper: Shaper, outcome: OutcomeView) -> Option<ResponseView> {
    match classified(outcome) {
        Some(result) => Some(shaper.spec_respond(result)),
        None => None,
    }
}

/// What an optional response says.
pub open spec fn optional_response(response: Option<Response>) -> Option<ResponseView> {
    match response {
        Some(r) => Some(r@),
        None => None,
    }
}

impl Search {
    /// The shaper is well formed.
    pub open spec fn wf(&self) -> bool {
        self.shaper.wf()
    }

    /// Whether the shaper is well formed.
    pub fn is_wf(&self) -> (b: bool)
        ensures
            b == self.wf(),
    {
        self.shaper.is_wf()
    }

    /// The path under the backend's address to which the search is sent.
    pub fn path(&self) -> (path: String)
        ensures
            path@ == search_path(self.shaper.spec_collection()),
    {
        search_path_of(self.shaper.collection())
    }

    /// The body of the search request: the query document as JSON text.
    pub fn body(&self) -> (text: String)
        ensures
            text@ == json_text(self.query@),
    {
        self.query.render()
    }

    /// The response for the client, given how the call to the backend
    /// ended. `None` exactly where a successful reply carries a body that
    /// is not JSON.
    pub fn conclude(&self, outcome: &Outcome) -> (response: Option<Response>)
        requires
            self.wf(),
        ensures
            optional_response(response) == concluded(self.shaper, outcome@),
    {
        match classify(outcome) {
            Some(result) => Some(self.shaper.respond(&result)),
            None => None,
        }
    }
}

impl Step {
    /// A search that the step holds is well formed.
    pub open spec fn wf(&self) -> bool {
        match self {
            Step::Respond(_) => true,
            Step::Search(search) => search.wf(),
        }
    }
}

} // verus!
