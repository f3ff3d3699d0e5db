use story_gateway::backend::Outcome;
use story_gateway::pagination::Pagination;
use story_gateway::response::Response;
use story_gateway::router::{Endpoint, Route, Router};
use story_gateway::shaper::Shaper;
use story_gateway::step::{Search, Step};

fn search_of(step: Step) -> Search {
    match step {
        Step::Search(search) => search,
        Step::Respond(response) => panic!("answered at once: {:?}", response),
    }
}

fn response_of(step: Step) -> Response {
    match step {
        Step::Respond(response) => response,
        Step::Search(search) => panic!("searched: {:?}", search),
    }
}

#[test]
fn the_table_has_the_eight_routes() {
    let router = Router::new();
    let lines: Vec<(&str, Endpoint)> =
        router.routes.iter().map(|route| (route.prefix.as_str(), route.endpoint)).collect();
    assert_eq!(
        lines,
        vec![
            ("/stories/list", Endpoint::StoryList),
            ("/stories/list_by_category", Endpoint::StoriesByCategory),
            ("/stories/detail_by_url_key", Endpoint::StoryDetail),
            ("/chapters/list", Endpoint::ChapterList),
            ("/chapters/detail_by_url", Endpoint::ChapterDetail),
            ("/categories/list", Endpoint::CategoryList),
            ("/categories/detail_by_url_key", Endpoint::CategoryDetail),
            ("/authors/detail_by_url_key", Endpoint::AuthorDetail),
        ]
    );
}

#[test]
fn category_listing_extracts_id_page_and_size() {
    let router = Router::new();
    let search =
        search_of(router.route_request("/stories/list_by_category/42", Some("page=2&size=5")));
    assert_eq!(search.shaper, Shaper::Stories(Pagination { page: 2, size: 5 }));
    assert_eq!(
        search.body(),
        "{\"from\":5,\"query\":{\"bool\":{\"must\":[\
         {\"term\":{\"categories.category_id.keyword\":\"42\"}}]}},\"size\":5}"
    );
}

#[test]
fn the_longest_prefix_wins_wherever_it_stands() {
    let mut router = Router::new();
    assert_eq!(router.select("/stories/list_by_category/42"), Some(1));
    assert_eq!(router.select("/stories/list"), Some(0));
    assert_eq!(router.select("/stories/list_by"), Some(0));
    router.routes.reverse();
    assert_eq!(router.select("/stories/list_by_category/42"), Some(6));
    assert_eq!(router.select("/stories/list"), Some(7));
}

#[test]
fn of_two_routes_with_one_prefix_the_first_serves() {
    let router = Router {
        routes: vec![
            Route { prefix: "/a".to_string(), endpoint: Endpoint::StoryList },
            Route { prefix: "/a".to_string(), endpoint: Endpoint::CategoryList },
            Route { prefix: "/".to_string(), endpoint: Endpoint::AuthorDetail },
        ],
    };
    assert_eq!(router.select("/a/b"), Some(0));
    assert_eq!(router.select("/b"), Some(2));
    assert_eq!(router.select("b"), None);
}

#[test]
fn a_route_serves_every_path_that_begins_with_its_prefix() {
    let router = Router::new();
    let search = search_of(router.route_request("/stories/listing", None));
    assert_eq!(search.shaper, Shaper::Stories(Pagination { page: 1, size: 10 }));
    let search = search_of(router.route_request("/categories/list/ignored", None));
    assert_eq!(search.shaper, Shaper::Categories);
}

#[test]
fn an_unknown_path_is_not_found() {
    let router = Router::new();
    for path in ["/", "", "/stories", "/stories/lis", "/es/detail/1", "stories/list"] {
        assert_eq!(
            response_of(router.route_request(path, None)),
            Response { status: 404, headers: vec![], body: "Not Found".to_string() }
        );
    }
    assert_eq!(Router { routes: vec![] }.select("/stories/list"), None);
}

#[test]
fn malformed_page_falls_back_to_the_first_page() {
    let router = Router::new();
    let search = search_of(router.route_request("/stories/list", Some("page=abc")));
    assert_eq!(search.shaper, Shaper::Stories(Pagination { page: 1, size: 10 }));
    assert_eq!(search.body(), "{\"from\":0,\"query\":{\"bool\":{\"must\":[]}},\"size\":10}");
    let search = search_of(router.route_request("/chapters/list/9", Some("page=abc&size=x")));
    assert_eq!(search.shaper, Shaper::Chapters(Pagination { page: 1, size: 50 }));
}

#[test]
fn missing_path_segments_are_bad_requests() {
    let router = Router::new();
    let cases = [
        ("/stories/list_by_category", "Bad Request: Missing category ID"),
        ("/stories/detail_by_url_key", "Bad Request: Missing URL key"),
        ("/chapters/list", "Bad Request: Missing story ID"),
        ("/chapters/detail_by_url", "Bad Request: Missing story/chapter keys"),
        ("/chapters/detail_by_url/storyonly", "Bad Request: Missing story/chapter keys"),
        ("/categories/detail_by_url_key", "Bad Request: Missing URL key"),
        ("/authors/detail_by_url_key", "Bad Request: Missing URL key"),
    ];
    for (path, message) in cases {
        assert_eq!(
            response_of(router.route_request(path, Some("page=1"))),
            Response { status: 400, headers: vec![], body: message.to_string() }
        );
    }
}

#[test]
fn an_empty_segment_is_a_key() {
    let router = Router::new();
    let search = search_of(router.route_request("/authors/detail_by_url_key/", None));
    assert_eq!(search.body(), "{\"query\":{\"term\":{\"url_key\":\"\"}},\"size\":1}");
}

#[test]
fn every_route_reaches_its_endpoint() {
    let router = Router::new();
    let cases = [
        ("/stories/list", Shaper::Stories(Pagination { page: 3, size: 4 }), "/stories/_search"),
        (
            "/stories/list_by_category/1",
            Shaper::Stories(Pagination { page: 3, size: 4 }),
            "/stories/_search",
        ),
        ("/stories/detail_by_url_key/k", Shaper::Story, "/stories/_search"),
        ("/chapters/list/1", Shaper::Chapters(Pagination { page: 3, size: 4 }), "/chapters/_search"),
        ("/chapters/detail_by_url/s/c", Shaper::Chapter, "/chapters/_search"),
        ("/categories/list", Shaper::Categories, "/categories/_search"),
        ("/categories/detail_by_url_key/k", Shaper::Category, "/categories/_search"),
        ("/authors/detail_by_url_key/k", Shaper::Author, "/authors/_search"),
    ];
    for (path, shaper, backend_path) in cases {
        let search = search_of(router.route_request(path, Some("page=3&size=4")));
        assert_eq!(search.shaper, shaper);
        assert_eq!(search.path(), backend_path);
        assert!(search.is_wf());
    }
}

#[test]
fn chapters_ignore_sort_by_latest() {
    let router = Router::new();
    let search = search_of(router.route_request("/chapters/list/9", Some("sort_by_latest=true")));
    assert_eq!(
        search.body(),
        "{\"from\":0,\"query\":{\"term\":{\"story_id\":\"9\"}},\"size\":50,\
         \"sort\":[{\"ordered\":{\"order\":\"asc\"}}]}"
    );
}

#[test]
fn stories_of_a_category_sort_by_latest() {
    let router = Router::new();
    let search =
        search_of(router.route_request("/stories/list_by_category/42", Some("sort_by_latest=true")));
    assert_eq!(
        search.body(),
        "{\"from\":0,\"query\":{\"bool\":{\"must\":[\
         {\"term\":{\"categories.category_id.keyword\":\"42\"}}]}},\"size\":10,\
         \"sort\":[{\"updated_date\":{\"order\":\"desc\"}}]}"
    );
}

#[test]
fn author_detail_end_to_end() {
    let router = Router::new();
    let search = search_of(router.route_request("/authors/detail_by_url_key/jane-doe", None));
    assert_eq!(search.path(), "/authors/_search");
    assert_eq!(search.body(), "{\"query\":{\"term\":{\"url_key\":\"jane-doe\"}},\"size\":1}");

    let found = Outcome::Replied {
        status: 200,
        body: "{\"hits\":{\"total\":{\"value\":1},\"hits\":[{\"_index\":\"authors\",\
               \"_source\":{\"url_key\":\"jane-doe\",\"name\":\"Jane Doe\",\"books\":12}}]}}"
            .to_string(),
    };
    let response = search.conclude(&found).unwrap();
    assert_eq!(response.status, 200);
    assert_eq!(
        response.headers,
        vec![("Content-Type".to_string(), "application/json".to_string())]
    );
    assert_eq!(response.body, "{\"books\":12,\"name\":\"Jane Doe\",\"url_key\":\"jane-doe\"}");

    let nothing = Outcome::Replied {
        status: 200,
        body: "{\"hits\":{\"total\":{\"value\":0},\"hits\":[]}}".to_string(),
    };
    let response = search.conclude(&nothing).unwrap();
    assert_eq!(response.status, 404);
    assert_eq!(response.body, "Author not found");

    let refused = Outcome::Failed { detail: "ConnectionRefused".to_string() };
    let response = search.conclude(&refused).unwrap();
    assert_eq!(response.status, 500);
    assert!(response.body.contains("ConnectionRefused"));
}

#[test]
fn dispatch_takes_segments_and_parameters() {
    let parts: Vec<String> = "/x/y/7".split('/').map(|part| part.to_string()).collect();
    let params = story_gateway::params::QueryParams::parse(Some("size=3"));
    let search = search_of(Endpoint::ChapterList.dispatch(parts, &params));
    assert_eq!(search.shaper, Shaper::Chapters(Pagination { page: 1, size: 3 }));
    assert_eq!(
        search.body(),
        "{\"from\":0,\"query\":{\"term\":{\"story_id\":\"7\"}},\"size\":3,\
         \"sort\":[{\"ordered\":{\"order\":\"asc\"}}]}"
    );
}
