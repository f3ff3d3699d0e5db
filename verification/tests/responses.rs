use story_gateway::backend::{classify, classify_reply, BackendError, Outcome};
use story_gateway::json::Json;
use story_gateway::pagination::Pagination;
use story_gateway::response::Response;
use story_gateway::shaper::{first, hits, sources, summaries, total, Shaper};
use story_gateway::step::Search;

const TWO_STORIES: &str = "{\"took\":3,\"hits\":{\"total\":{\"value\":23,\"relation\":\"eq\"},\
    \"hits\":[{\"_id\":\"1\",\"_source\":{\"title\":\"A\",\"id\":1}},\
    {\"_id\":\"2\",\"_source\":{\"title\":\"B\"}}]}}";

const NO_HITS: &str = "{\"hits\":{\"total\":{\"value\":0},\"hits\":[]}}";

fn json_headers() -> Vec<(String, String)> {
    vec![("Content-Type".to_string(), "application/json".to_string())]
}

fn replied(status: u16, body: &str) -> Outcome {
    Outcome::Replied { status, body: body.to_string() }
}

fn search(shaper: Shaper) -> Search {
    Search { query: Json::Null, shaper }
}

#[test]
fn story_list_is_wrapped_with_totals() {
    let shaper = Shaper::Stories(Pagination { page: 1, size: 10 });
    let response = shaper.shape(&Json::parse(TWO_STORIES).unwrap());
    assert_eq!(response.status, 200);
    assert_eq!(response.headers, json_headers());
    assert_eq!(
        response.body,
        "{\"data\":{\"list\":[{\"id\":1,\"title\":\"A\"},{\"title\":\"B\"}],\
         \"total\":23,\"total_page\":3},\"error\":false,\"message\":\"Successfully\"}"
    );
}

#[test]
fn total_page_follows_the_page_size() {
    let body = Json::parse(TWO_STORIES).unwrap();
    let by_five = Shaper::Stories(Pagination { page: 1, size: 5 }).listing(&body);
    assert_eq!(by_five.member("data").member("total_page"), Json::unsigned(5));
    let by_23 = Shaper::Stories(Pagination { page: 1, size: 23 }).listing(&body);
    assert_eq!(by_23.member("data").member("total_page"), Json::unsigned(1));
    let by_24 = Shaper::Stories(Pagination { page: 1, size: 24 }).listing(&body);
    assert_eq!(by_24.member("data").member("total_page"), Json::unsigned(1));
    let by_22 = Shaper::Stories(Pagination { page: 1, size: 22 }).listing(&body);
    assert_eq!(by_22.member("data").member("total_page"), Json::unsigned(2));
}

#[test]
fn a_result_without_hits_is_an_empty_list() {
    let shaper = Shaper::Stories(Pagination { page: 1, size: 10 });
    let empty = "{\"data\":{\"list\":[],\"total\":0,\"total_page\":0},\
                 \"error\":false,\"message\":\"Successfully\"}";
    assert_eq!(shaper.shape(&Json::parse(NO_HITS).unwrap()).body, empty);
    assert_eq!(shaper.shape(&Json::parse("{}").unwrap()).body, empty);
    assert_eq!(shaper.shape(&Json::parse("{\"hits\":{\"hits\":7}}").unwrap()).body, empty);
    assert_eq!(shaper.shape(&Json::parse("[1,2]").unwrap()).body, empty);
}

#[test]
fn a_hit_without_a_stored_document_is_listed_as_null() {
    let body = Json::parse("{\"hits\":{\"total\":{\"value\":2},\"hits\":[{\"_id\":\"1\"},7]}}");
    let shaper = Shaper::Categories;
    assert_eq!(
        shaper.shape(&body.unwrap()).body,
        "{\"data\":{\"list\":[null,null]},\"error\":false,\"message\":\"Successfully\"}"
    );
}

#[test]
fn category_list_has_no_totals() {
    let response = Shaper::Categories.shape(&Json::parse(TWO_STORIES).unwrap());
    assert_eq!(response.status, 200);
    assert_eq!(response.headers, json_headers());
    assert_eq!(
        response.body,
        "{\"data\":{\"list\":[{\"id\":1,\"title\":\"A\"},{\"title\":\"B\"}]},\
         \"error\":false,\"message\":\"Successfully\"}"
    );
}

#[test]
fn chapter_list_holds_summaries() {
    let body = "{\"hits\":{\"total\":{\"value\":51},\"hits\":[{\"_source\":{\
        \"chapter_id\":5,\"story_id\":\"9\",\"increment_id\":1,\"title\":\"One\",\
        \"short_title\":\"1\",\"url_key\":\"one\",\"ordered\":1,\"status\":true,\
        \"created_date\":\"2024-01-01\",\"updated_date\":\"2024-01-02\",\
        \"content\":\"a long text\"}},{\"_source\":{\"title\":\"Two\"}}]}}";
    let shaper = Shaper::Chapters(Pagination { page: 1, size: 50 });
    let response = shaper.shape(&Json::parse(body).unwrap());
    assert_eq!(response.status, 200);
    assert_eq!(response.headers, json_headers());
    assert_eq!(
        response.body,
        "{\"data\":{\"list\":[{\"chapter_id\":5,\"created_date\":\"2024-01-01\",\
         \"increment_id\":1,\"ordered\":1,\"short_title\":\"1\",\"status\":true,\
         \"story_id\":\"9\",\"title\":\"One\",\"updated_date\":\"2024-01-02\",\
         \"url_key\":\"one\"},{\"chapter_id\":null,\"created_date\":null,\
         \"increment_id\":null,\"ordered\":null,\"short_title\":null,\"status\":null,\
         \"story_id\":null,\"title\":\"Two\",\"updated_date\":null,\"url_key\":null}],\
         \"total\":51,\"total_page\":2},\"error\":false,\"message\":\"Successfully\"}"
    );
}

#[test]
fn detail_is_the_bare_document() {
    for shaper in [Shaper::Story, Shaper::Chapter, Shaper::Category, Shaper::Author] {
        let response = shaper.shape(&Json::parse(TWO_STORIES).unwrap());
        assert_eq!(response.status, 200);
        assert_eq!(response.headers, json_headers());
        assert_eq!(response.body, "{\"id\":1,\"title\":\"A\"}");
    }
}

#[test]
fn detail_without_a_match_is_not_found() {
    let cases = [
        (Shaper::Story, "Story not found"),
        (Shaper::Chapter, "Chapter not found"),
        (Shaper::Category, "Category not found"),
        (Shaper::Author, "Author not found"),
    ];
    for (shaper, message) in cases {
        for body in [NO_HITS, "{}", "{\"hits\":{\"hits\":[{\"_source\":7}]}}", "null"] {
            let response = shaper.shape(&Json::parse(body).unwrap());
            assert_eq!(response.status, 404);
            assert_eq!(response.body, message);
            assert!(response.headers.is_empty());
        }
    }
}

#[test]
fn a_rejected_search_carries_the_status_of_the_backend() {
    let cases = [
        (Shaper::Stories(Pagination { page: 1, size: 10 }), "Failed to fetch stories"),
        (Shaper::Chapters(Pagination { page: 1, size: 50 }), "Failed to fetch chapters"),
        (Shaper::Categories, "Failed to fetch categories"),
        (Shaper::Story, "Story not found"),
        (Shaper::Chapter, "Chapter not found"),
        (Shaper::Category, "Failed to fetch category"),
        (Shaper::Author, "Failed to fetch author"),
    ];
    for (shaper, message) in cases {
        let response = search(shaper).conclude(&replied(503, "unavailable")).unwrap();
        assert_eq!(response, Response { status: 503, headers: vec![], body: message.to_string() });
        let response = shaper.fail(&BackendError::Rejected { status: 400 });
        assert_eq!(response, Response { status: 400, headers: vec![], body: message.to_string() });
    }
}

#[test]
fn an_unreachable_backend_is_a_server_error() {
    let outcome = Outcome::Failed { detail: "connection refused".to_string() };
    for shaper in [Shaper::Categories, Shaper::Author] {
        let response = search(shaper).conclude(&outcome).unwrap();
        assert_eq!(response.status, 500);
        assert_eq!(response.body, "Elasticsearch error: connection refused");
        assert!(response.headers.is_empty());
    }
}

#[test]
fn success_is_a_status_from_200_to_299() {
    let author = search(Shaper::Author);
    for status in [200, 201, 204, 299] {
        let response = author.conclude(&replied(status, TWO_STORIES)).unwrap();
        assert_eq!(response.status, 200);
    }
    for status in [100, 199, 300, 301, 404, 500, 999] {
        let response = author.conclude(&replied(status, TWO_STORIES)).unwrap();
        assert_eq!(response.status, status);
        assert_eq!(response.body, "Failed to fetch author");
    }
}

#[test]
fn a_successful_reply_that_is_not_json_has_no_response() {
    let author = search(Shaper::Author);
    assert_eq!(author.conclude(&replied(200, "<html>")), None);
    assert_eq!(author.conclude(&replied(200, "")), None);
    assert!(author.conclude(&replied(502, "<html>")).is_some());
}

#[test]
fn classify_tells_the_three_outcomes_apart() {
    assert_eq!(classify(&replied(200, "{\"a\":1}")), Some(Ok(Json::parse("{\"a\":1}").unwrap())));
    assert_eq!(classify(&replied(200, "{")), None);
    assert_eq!(classify(&replied(404, "{")), Some(Err(BackendError::Rejected { status: 404 })));
    assert_eq!(
        classify(&Outcome::Failed { detail: "timeout".to_string() }),
        Some(Err(BackendError::Unreachable { detail: "timeout".to_string() }))
    );
    assert_eq!(classify_reply(200, Some(Json::Null)), Some(Ok(Json::Null)));
    assert_eq!(classify_reply(200, None), None);
    assert_eq!(classify_reply(500, None), Some(Err(BackendError::Rejected { status: 500 })));
    assert_eq!(
        classify_reply(500, Some(Json::Null)),
        Some(Err(BackendError::Rejected { status: 500 }))
    );
}

#[test]
fn the_parts_of_a_result() {
    let body = Json::parse(TWO_STORIES).unwrap();
    assert_eq!(hits(&body).unwrap().len(), 2);
    assert_eq!(total(&body), 23);
    assert_eq!(sources(&body).len(), 2);
    assert_eq!(summaries(&body).len(), 2);
    assert_eq!(first(&body).unwrap().render(), "{\"id\":1,\"title\":\"A\"}");
    let empty = Json::parse("{}").unwrap();
    assert!(hits(&empty).is_none());
    assert_eq!(total(&empty), 0);
    assert!(sources(&empty).is_empty());
    assert!(first(&empty).is_none());
    assert_eq!(total(&Json::parse("{\"hits\":{\"total\":{\"value\":-4}}}").unwrap()), 0);
    assert_eq!(total(&Json::parse("{\"hits\":{\"total\":7}}").unwrap()), 0);
}

#[test]
fn the_messages_and_collections_of_the_shapers() {
    assert_eq!(Shaper::Story.collection(), "stories");
    assert_eq!(Shaper::Stories(Pagination { page: 1, size: 1 }).collection(), "stories");
    assert_eq!(Shaper::Chapter.collection(), "chapters");
    assert_eq!(Shaper::Chapters(Pagination { page: 1, size: 1 }).collection(), "chapters");
    assert_eq!(Shaper::Category.collection(), "categories");
    assert_eq!(Shaper::Categories.collection(), "categories");
    assert_eq!(Shaper::Author.collection(), "authors");
    assert_eq!(Shaper::Author.missing(), "Author not found");
    assert_eq!(Shaper::Categories.missing(), "");
    assert!(Shaper::Categories.is_wf());
    assert!(!Shaper::Stories(Pagination { page: 1, size: 0 }).is_wf());
}
