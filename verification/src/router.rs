//! The route table and the dispatch of a request to its endpoint.
//!
//! A route serves every path that begins with its prefix. Where the
//! prefixes of several routes begin a path, the route with the longest
//! prefix serves it, and among routes with prefixes of one length the one
//! that stands first in the table. A path that no prefix begins is
//! answered with 404.

use crate::authors::{author_search, fetch_author_detail_by_url_key};
use crate::categories::{
    categories_search, category_search, fetch_categories, fetch_category_detail_by_url_key,
};
use crate::chapters::{
    chapter_detail, fetch_chapter_detail, fetch_chapters_by_story_id, story_chapters_search,
};
use crate::pagination::{DEFAULT_CHAPTER_PAGE_SIZE, DEFAULT_PAGE_SIZE};
use crate::params::{flag_param, params_of, requested_page, requested_size, QueryParams};
use crate::response::{bad_request, no_route, Response};
use crate::step::{Step, StepView};
use crate::stories::{
    category_stories_search, fetch_stories, fetch_stories_by_category, fetch_story_detail,
    stories_search, story_detail,
};
use crate::text::{begins_with, chars_of, split, split_on, texts_of};
use vstd::prelude::*;

verus! {

/// The endpoints of the gateway.
#[derive(Clone, Copy, Debug, PartialEq, Eq)]
pub enum Endpoint {
    StoryList,
    StoriesByCategory,
    StoryDetail,
    ChapterList,
    ChapterDetail,
    CategoryList,
    CategoryDetail,
    AuthorDetail,
}

/// One line of the route table: the endpoint that serves the paths which
/// begin with the prefix.
#[derive(Clone, Debug, PartialEq, Eq)]
pub struct Route {
    pub prefix: String,
    pub endpoint: Endpoint,
}

/// The route table.
#[derive(Clone, Debug, PartialEq, Eq)]
pub struct Router {
    pub routes: Vec<Route>,
}

/// What a route table says, line by line.
pub open spec fn route_lines(routes: Seq<Route>) -> Seq<(Seq<char>, Endpoint)> {
    routes.map_values(|route: Route| (route.prefix@, route.endpoint))
}

impl View for Router {
    type V = Seq<(Seq<char>, Endpoint)>;

    open spec fn view(&self) -> Seq<(Seq<char>, Endpoint)> {
        route_lines(self.routes@)
    }
}

/// The route table of the gateway.
pub open spec fn standard_routes() -> Seq<(Seq<char>, Endpoint)> {
    seq![
        ("/stories/list"@, Endpoint::StoryList),
        ("/stories/list_by_category"@, Endpoint::StoriesByCategory),
        ("/stories/detail_by_url_key"@, Endpoint::StoryDetail),
        ("/chapters/list"@, Endpoint::ChapterList),
        ("/chapters/detail_by_url"@, Endpoint::ChapterDetail),
        ("/categories/list"@, Endpoint::CategoryList),
        ("/categories/detail_by_url_key"@, Endpoint::CategoryDetail),
        ("/authors/detail_by_url_key"@, Endpoint::AuthorDetail),
    ]
}

/// Whether line `i` of a table is at least as good a match for a path as
/// line `j`: its prefix is longer, or as long and it does not stand later.
pub open spec fn outranks(routes: Seq<(Seq<char>, Endpoint)>, i: int, j: int) -> bool {
    routes[j].0.len() < routes[i].0.len() || (routes[j].0.len() == routes[i].0.len() && i <= j)
}

/// Whether line `i` of a table serves a path: its prefix begins the path,
/// and it outranks every line whose prefix begins the path.
pub open spec fn serves(routes: Seq<(Seq<char>, Endpoint)>, path: Seq<char>, i: int) -> bool {
    &&& 0 <= i < routes.len()
    &&& routes[i].0.is_prefix_of(path)
    &&& forall|j: int|
        0 <= j < routes.len() && (#[trigger] routes[j]).0.is_prefix_of(path) ==> outranks(
            routes,
            i,
            j,
        )
}

/// The line of a table that serves a path, if there is one.
pub open spec fn selected(routes: Seq<(Seq<char>, Endpoint)>, path: Seq<char>) -> Option<int> {
    if exists|i: int| serves(routes, path, i) {
        Some(choose|i: int| serves(routes, path, i))
    } else {
        None
    }
}

/// What an endpoint does with the segments of a path and the parameters of
/// a request.
pub open spec fn dispatched(
    endpoint: Endpoint,
    parts: Seq<Seq<char>>,
    params: Map<Seq<char>, Seq<char>>,
) -> StepView {
    match endpoint {
        Endpoint::StoryList => StepView::Search(stories_search(params)),
        Endpoint::StoriesByCategory => if parts.len() < 4 {
            StepView::Respond(bad_request("Bad Request: Missing category ID"@))
        } else {
            StepView::Search(
                category_stories_search(
                    parts[3],
                    requested_page(params),
                    requested_size(params, DEFAULT_PAGE_SIZE),
                    flag_param(params, "sort_by_latest"@),
                ),
            )
        },
        Endpoint::StoryDetail => story_detail(parts),
        Endpoint::ChapterList => if parts.len() < 4 {
            StepView::Respond(bad_request("Bad Request: Missing story ID"@))
        } else {
            StepView::Search(
                story_chapters_search(
                    parts[3],
                    requested_page(params),
                    requested_size(params, DEFAULT_CHAPTER_PAGE_SIZE),
                ),
            )
        },
        Endpoint::ChapterDetail => chapter_detail(parts),
        Endpoint::CategoryList => StepView::Search(categories_search(params)),
        Endpoint::CategoryDetail => if parts.len() < 4 {
            StepView::Respond(bad_request("Bad Request: Missing URL key"@))
        } else {
            StepView::Search(category_search(parts[3]))
        },
        Endpoint::AuthorDetail => if parts.len() < 4 {
            StepView::Respond(bad_request("Bad Request: Missing URL key"@))
        } else {
            StepView::Search(author_search(parts[3]))
        },
    }
}

/// What a route table does with a request: the endpoint of the line that
/// serves the path gets the segments of the path and the parameters of the
/// query string; a path that no line serves is answered with 404.
pub open spec fn routed(
    routes: Seq<(Seq<char>, Endpoint)>,
    path: Seq<char>,
    query: Option<Seq<char>>,
) -> StepView {
    match selected(routes, path) {
        Some(i) => dispatched(routes[i].1, split_on(path, '/'), params_of(query)),
        None => StepView::Respond(no_route()),
    }
}

/// At most one line serves a path.
pub proof fn lemma_serves_once(routes: Seq<(Seq<char>, Endpoint)>, path: Seq<char>, i: int, j: int)
    requires
        serves(routes, path, i),
        serves(routes, path, j),
    ensures
        i == j,
{
    assert(outranks(routes, i, j));
    assert(outranks(routes, j, i));
}

/// A line that serves a path is the selected one.
pub proof fn lemma_selected(routes: Seq<(Seq<char>, Endpoint)>, path: Seq<char>, i: int)
    requires
        serves(routes, path, i),
    ensures
        selected(routes, path) == Some(i),
{
    let chosen = choose|k: int| serves(routes, path, k);
    lemma_serves_once(routes, path, i, chosen);
}

/// A path that no prefix begins is served by no line.
pub proof fn lemma_unserved(routes: Seq<(Seq<char>, Endpoint)>, path: Seq<char>)
    requires
        forall|j: int| 0 <= j < routes.len() ==> !(#[trigger] routes[j]).0.is_prefix_of(path),
    ensures
        selected(routes, path) is None,
{
}

/// The number of segments that an endpoint needs in the path, the empty
/// segment before the first slash included.
pub open spec fn required_segments(endpoint: Endpoint) -> nat {
    match endpoint {
        Endpoint::StoryList | Endpoint::CategoryList => 0,
        Endpoint::ChapterDetail => 5,
        _ => 4,
    }
}

/// A request whose path lacks a segment that its endpoint needs is
/// answered with 400 and a body that begins with `Bad Request`; no search
/// is made. Every other request leads to a search.
pub proof fn lemma_missing_segments(
    endpoint: Endpoint,
    parts: Seq<Seq<char>>,
    params: Map<Seq<char>, Seq<char>>,
)
    ensures
        parts.len() < required_segments(endpoint) ==> {
            &&& dispatched(endpoint, parts, params) matches StepView::Respond(response)
            &&& response.status == 400
            &&& "Bad Request"@.is_prefix_of(response.body)
            &&& response.headers.len() == 0
        },
        parts.len() >= required_segments(endpoint) ==> dispatched(endpoint, parts, params)
            is Search,
{
    reveal_strlit("Bad Request");
    reveal_strlit("Bad Request: Missing category ID");
    reveal_strlit("Bad Request: Missing story ID");
    reveal_strlit("Bad Request: Missing URL key");
    reveal_strlit("Bad Request: Missing story/chapter keys");
    assert("Bad Request"@.is_prefix_of("Bad Request: Missing category ID"@));
    assert("Bad Request"@.is_prefix_of("Bad Request: Missing story ID"@));
    assert("Bad Request"@.is_prefix_of("Bad Request: Missing URL key"@));
    assert("Bad Request"@.is_prefix_of("Bad Request: Missing story/chapter keys"@));
}

/// A path has the characters of a prefix that begins it.
proof fn lemma_prefix_char(prefix: Seq<char>, path: Seq<char>, k: int)
    requires
        prefix.is_prefix_of(path),
        0 <= k < prefix.len(),
    ensures
        k < path.len(),
        path[k] == prefix[k],
{
    assert(path.subrange(0, prefix.len() as int)[k] == path[k]);
}

/// Which line of the gateway's table serves a path: the line whose prefix
/// begins the path. The prefix of the story listing also begins the paths
/// of the listing of a category; those are served by the longer prefix.
pub proof fn lemma_standard_routes(path: Seq<char>)
    ensures
        "/stories/list_by_category"@.is_prefix_of(path) ==> selected(standard_routes(), path)
            == Some(1int),
        "/stories/list"@.is_prefix_of(path) && !"/stories/list_by_category"@.is_prefix_of(path)
            ==> selected(standard_routes(), path) == Some(0int),
        "/stories/detail_by_url_key"@.is_prefix_of(path) ==> selected(standard_routes(), path)
            == Some(2int),
        "/chapters/list"@.is_prefix_of(path) ==> selected(standard_routes(), path) == Some(3int),
        "/chapters/detail_by_url"@.is_prefix_of(path) ==> selected(standard_routes(), path)
            == Some(4int),
        "/categories/list"@.is_prefix_of(path) ==> selected(standard_routes(), path) == Some(
            5int,
        ),
        "/categories/detail_by_url_key"@.is_prefix_of(path) ==> selected(standard_routes(), path)
            == Some(6int),
        "/authors/detail_by_url_key"@.is_prefix_of(path) ==> selected(standard_routes(), path)
            == Some(7int),
        (forall|i: int|
            0 <= i < standard_routes().len() ==> !(#[trigger] standard_routes()[i]).0.is_prefix_of(
                path,
            )) ==> selected(standard_routes(), path) is None,
{
    let routes = standard_routes();
    reveal_strlit("/stories/list");
    reveal_strlit("/stories/list_by_category");
    reveal_strlit("/stories/detail_by_url_key");
    reveal_strlit("/chapters/list");
    reveal_strlit("/chapters/detail_by_url");
    reveal_strlit("/categories/list");
    reveal_strlit("/categories/detail_by_url_key");
    reveal_strlit("/authors/detail_by_url_key");
    assert(routes.len() == 8);
    assert forall|i: int| 0 <= i < 8 && (#[trigger] routes[i]).0.is_prefix_of(path) implies {
        &&& path.len() > 1
        &&& path[1] == routes[i].0[1]
        &&& path[2] == routes[i].0[2]
        &&& (i <= 2 ==> path[9] == routes[i].0[9])
        &&& (3 <= i <= 4 ==> path[10] == routes[i].0[10])
        &&& (5 <= i <= 6 ==> path[12] == routes[i].0[12])
    } by {
        lemma_prefix_char(routes[i].0, path, 1);
        lemma_prefix_char(routes[i].0, path, 2);
        if i <= 2 {
            lemma_prefix_char(routes[i].0, path, 9);
        }
        if 3 <= i <= 4 {
            lemma_prefix_char(routes[i].0, path, 10);
        }
        if 5 <= i <= 6 {
            lemma_prefix_char(routes[i].0, path, 12);
        }
    }
    if routes[1].0.is_prefix_of(path) {
        assert(serves(routes, path, 1));
        lemma_selected(routes, path, 1);
    } else if routes[0].0.is_prefix_of(path) {
        assert(serves(routes, path, 0));
        lemma_selected(routes, path, 0);
    } else if routes[2].0.is_prefix_of(path) {
        assert(serves(routes, path, 2));
        lemma_selected(routes, path, 2);
    } else if routes[3].0.is_prefix_of(path) {
        assert(serves(routes, path, 3));
        lemma_selected(routes, path, 3);
    } else if routes[4].0.is_prefix_of(path) {
        assert(serves(routes, path, 4));
        lemma_selected(routes, path, 4);
    } else if routes[5].0.is_prefix_of(path) {
        assert(serves(routes, path, 5));
        lemma_selected(routes, path, 5);
    } else if routes[6].0.is_prefix_of(path) {
        assert(serves(routes, path, 6));
        lemma_selected(routes, path, 6);
    } else if routes[7].0.is_prefix_of(path) {
        assert(serves(routes, path, 7));
        lemma_selected(routes, path, 7);
    }
}

impl Endpoint {
    /// What the endpoint does with the segments of a path and the
    /// parameters of a request.
    pub fn dispatch(&self, path_parts: Vec<String>, query_params: &QueryParams) -> (step: Step)
        ensures
            step@ == dispatched(*self, texts_of(path_parts@), query_params@),
            step.wf(),
    {
        proof {
            if path_parts.len() >= 4 {
                assert(texts_of(path_parts@)[3] == path_parts@[3]@);
            }
        }
        match self {
            Endpoint::StoryList => Step::Search(fetch_stories(query_params)),
            Endpoint::StoriesByCategory => {
                if path_parts.len() < 4 {
                    return Step::Respond(
                        Response::bad_request("Bad Request: Missing category ID"),
                    );
                }
                let category_id = path_parts[3].clone();
                let page = query_params.page();
                let size = query_params.size(DEFAULT_PAGE_SIZE);
                let sort_by_latest = query_params.flag("sort_by_latest");
                Step::Search(fetch_stories_by_category(category_id, page, size, sort_by_latest))
            },
            Endpoint::StoryDetail => fetch_story_detail(path_parts),
            Endpoint::ChapterList => {
                if path_parts.len() < 4 {
                    return Step::Respond(Response::bad_request("Bad Request: Missing story ID"));
                }
                let story_id = path_parts[3].clone();
                let page = query_params.page();
                let size = query_params.size(DEFAULT_CHAPTER_PAGE_SIZE);
                Step::Search(fetch_chapters_by_story_id(story_id, page, size))
            },
            Endpoint::ChapterDetail => fetch_chapter_detail(path_parts),
            Endpoint::CategoryList => Step::Search(fetch_categories(query_params)),
            Endpoint::CategoryDetail => {
                if path_parts.len() < 4 {
                    return Step::Respond(Response::bad_request("Bad Request: Missing URL key"));
                }
                let url_key = path_parts[3].clone();
                Step::Search(fetch_category_detail_by_url_key(url_key))
            },
            Endpoint::AuthorDetail => {
                if path_parts.len() < 4 {
                    return Step::Respond(Response::bad_request("Bad Request: Missing URL key"));
                }
                let url_key = path_parts[3].clone();
                Step::Search(fetch_author_detail_by_url_key(url_key))
            },
        }
    }
}

/// Adds a line to a route table under construction.
fn add_route(routes: &mut Vec<Route>, prefix: &str, endpoint: Endpoint)
    ensures
        route_lines(final(routes)@) == route_lines(old(routes)@).push((prefix@, endpoint)),
{
    let route = Route { prefix: prefix.to_owned(), endpoint };
    proof {
        assert(route_lines(routes@.push(route)) =~= route_lines(routes@).push(
            (prefix@, endpoint),
        ));
    }
    routes.push(route);
}

impl Router {
    /// The route table of the gateway.
    pub fn new() -> (router: Router)
        ensures
            router@ == standard_routes(),
    {
        let mut routes: Vec<Route> = Vec::new();
        proof {
            assert(route_lines(routes@) =~= Seq::empty());
        }
        add_route(&mut routes, "/stories/list", Endpoint::StoryList);
        add_route(&mut routes, "/stories/list_by_category", Endpoint::StoriesByCategory);
        add_route(&mut routes, "/stories/detail_by_url_key", Endpoint::StoryDetail);
        add_route(&mut routes, "/chapters/list", Endpoint::ChapterList);
        add_route(&mut routes, "/chapters/detail_by_url", Endpoint::ChapterDetail);
        add_route(&mut routes, "/categories/list", Endpoint::CategoryList);
        add_route(&mut routes, "/categories/detail_by_url_key", Endpoint::CategoryDetail);
        add_route(&mut routes, "/authors/detail_by_url_key", Endpoint::AuthorDetail);
        proof {
            assert(route_lines(routes@) =~= standard_routes());
        }
        Router { routes }
    }

    /// The line of the table that serves a path, if there is one.
    pub fn select(&self, path: &str) -> (line: Option<usize>)
        ensures
            match line {
                Some(i) => selected(self@, path@) == Some(i as int),
                None => selected(self@, path@) is None,
            },
    {
        let text = chars_of(path);
        let ghost lines = self@;
        let mut best: Option<usize> = None;
        let mut best_len: usize = 0;
        let mut k: usize = 0;
        while k < self.routes.len()
            invariant
                k <= self.routes.len(),
                lines == self@,
                lines.len() == self.routes.len(),
                text@ == path@,
                match best {
                    Some(i) => {
                        &&& i < k
                        &&& lines[i as int].0.is_prefix_of(path@)
                        &&& best_len == lines[i as int].0.len()
                        &&& forall|j: int|
                            0 <= j < k && (#[trigger] lines[j]).0.is_prefix_of(path@)
                                ==> outranks(lines, i as int, j)
                    },
                    None => forall|j: int|
                        0 <= j < k ==> !(#[trigger] lines[j]).0.is_prefix_of(path@),
                },
            decreases self.routes.len() - k,
        {
            let prefix = chars_of(self.routes[k].prefix.as_str());
            proof {
                assert(lines[k as int].0 == prefix@);
            }
            if begins_with(&text, &prefix) {
                let better = match best {
                    Some(_) => prefix.len() > best_len,
                    None => true,
                };
                if better {
                    best = Some(k);
                    best_len = prefix.len();
                }
            }
            k += 1;
        }
        proof {
            match best {
                Some(i) => {
                    lemma_selected(lines, path@, i as int);
                },
                None => {
                    lemma_unserved(lines, path@);
                },
            }
        }
        best
    }

    /// What to do with a request, given its path and its query string.
    pub fn route_request(&self, path: &str, query: Option<&str>) -> (step: Step)
        ensures
            step@ == routed(
                self@,
                path@,
                match query {
                    Some(text) => Some(text@),
                    None => None,
                },
            ),
            step.wf(),
    {
        match self.select(path) {
            Some(i) => {
                let parts = split(path, '/');
                let params = QueryParams::parse(query);
                proof {
                    assert(self@[i as int].1 == self.routes@[i as int].endpoint);
                }
                self.routes[i].endpoint.dispatch(parts, &params)
            },
            None => Step::Respond(Response::no_route()),
        }
    }
}

} // verus!
