use story_gateway::authors::fetch_author_detail_by_url_key;
use story_gateway::categories::{fetch_categories, fetch_category_detail_by_url_key};
use story_gateway::chapters::{fetch_chapter_detail, fetch_chapters_by_story_id};
use story_gateway::pagination::Pagination;
use story_gateway::params::QueryParams;
use story_gateway::shaper::Shaper;
use story_gateway::step::{Search, Step};
use story_gateway::stories::{fetch_stories, fetch_stories_by_category, fetch_story_detail};

fn parts(path: &str) -> Vec<String> {
    path.split('/').map(|part| part.to_string()).collect()
}

fn search_of(step: Step) -> Search {
    match step {
        Step::Search(search) => search,
        Step::Respond(response) => panic!("answered at once: {:?}", response),
    }
}

#[test]
fn stories_without_parameters_ask_for_the_first_ten() {
    let search = fetch_stories(&QueryParams::parse(None));
    assert_eq!(search.body(), "{\"from\":0,\"query\":{\"bool\":{\"must\":[]}},\"size\":10}");
    assert_eq!(search.shaper, Shaper::Stories(Pagination { page: 1, size: 10 }));
    assert_eq!(search.path(), "/stories/_search");
}

#[test]
fn stories_with_every_filter() {
    let params = QueryParams::parse(Some(
        "page=2&size=5&title=hello%20world&author_id=7&is_full=true&sort_by_latest=true",
    ));
    let search = fetch_stories(&params);
    assert_eq!(
        search.body(),
        "{\"from\":5,\"query\":{\"bool\":{\"must\":[\
         {\"match\":{\"title\":\"hello world\"}},\
         {\"term\":{\"author.author_id.keyword\":\"7\"}},\
         {\"term\":{\"is_full\":true}}]}},\
         \"size\":5,\"sort\":[{\"updated_date\":{\"order\":\"desc\"}}]}"
    );
    assert_eq!(search.shaper, Shaper::Stories(Pagination { page: 2, size: 5 }));
}

#[test]
fn is_full_true_adds_the_clause() {
    let search = fetch_stories(&QueryParams::parse(Some("is_full=true")));
    assert_eq!(
        search.body(),
        "{\"from\":0,\"query\":{\"bool\":{\"must\":[{\"term\":{\"is_full\":true}}]}},\"size\":10}"
    );
}

#[test]
fn is_full_false_or_absent_adds_no_clause() {
    let bare = "{\"from\":0,\"query\":{\"bool\":{\"must\":[]}},\"size\":10}";
    assert_eq!(fetch_stories(&QueryParams::parse(Some("is_full=false"))).body(), bare);
    assert_eq!(fetch_stories(&QueryParams::parse(Some("is_full=yes"))).body(), bare);
    assert_eq!(fetch_stories(&QueryParams::parse(Some("is_full="))).body(), bare);
    assert_eq!(fetch_stories(&QueryParams::parse(Some("other=true"))).body(), bare);
}

#[test]
fn sort_by_latest_true_sorts_stories_by_recency() {
    let sorted = fetch_stories(&QueryParams::parse(Some("sort_by_latest=true")));
    assert_eq!(
        sorted.body(),
        "{\"from\":0,\"query\":{\"bool\":{\"must\":[]}},\"size\":10,\
         \"sort\":[{\"updated_date\":{\"order\":\"desc\"}}]}"
    );
    let unsorted = fetch_stories(&QueryParams::parse(Some("sort_by_latest=false")));
    assert_eq!(unsorted.body(), "{\"from\":0,\"query\":{\"bool\":{\"must\":[]}},\"size\":10}");
}

#[test]
fn a_title_that_does_not_decode_is_matched_as_it_came() {
    let search = fetch_stories(&QueryParams::parse(Some("title=%FF")));
    assert_eq!(
        search.body(),
        "{\"from\":0,\"query\":{\"bool\":{\"must\":[{\"match\":{\"title\":\"%FF\"}}]}},\"size\":10}"
    );
}

#[test]
fn malformed_page_and_size_fall_back_to_the_defaults() {
    let search = fetch_stories(&QueryParams::parse(Some("page=abc&size=ten")));
    assert_eq!(search.body(), "{\"from\":0,\"query\":{\"bool\":{\"must\":[]}},\"size\":10}");
    assert_eq!(search.shaper, Shaper::Stories(Pagination { page: 1, size: 10 }));
}

#[test]
fn page_zero_and_size_zero_are_replaced() {
    let search = fetch_stories(&QueryParams::parse(Some("page=0&size=0")));
    assert_eq!(search.body(), "{\"from\":0,\"query\":{\"bool\":{\"must\":[]}},\"size\":10}");
    assert_eq!(search.shaper, Shaper::Stories(Pagination { page: 1, size: 10 }));
}

#[test]
fn stories_of_a_category() {
    let search = fetch_stories_by_category("42".to_string(), 2, 5, false);
    assert_eq!(
        search.body(),
        "{\"from\":5,\"query\":{\"bool\":{\"must\":[\
         {\"term\":{\"categories.category_id.keyword\":\"42\"}}]}},\"size\":5}"
    );
    assert_eq!(search.shaper, Shaper::Stories(Pagination { page: 2, size: 5 }));
    assert_eq!(search.path(), "/stories/_search");
}

#[test]
fn stories_of_a_category_by_recency() {
    let search = fetch_stories_by_category("42".to_string(), 1, 10, true);
    assert_eq!(
        search.body(),
        "{\"from\":0,\"query\":{\"bool\":{\"must\":[\
         {\"term\":{\"categories.category_id.keyword\":\"42\"}}]}},\"size\":10,\
         \"sort\":[{\"updated_date\":{\"order\":\"desc\"}}]}"
    );
}

#[test]
fn story_detail_asks_for_the_one_story() {
    let search = search_of(fetch_story_detail(parts("/stories/detail_by_url_key/the-tale")));
    assert_eq!(search.body(), "{\"query\":{\"term\":{\"url_key\":\"the-tale\"}},\"size\":1}");
    assert_eq!(search.shaper, Shaper::Story);
    assert_eq!(search.path(), "/stories/_search");
}

#[test]
fn story_detail_without_a_key_is_a_bad_request() {
    match fetch_story_detail(parts("/stories/detail_by_url_key")) {
        Step::Respond(response) => {
            assert_eq!(response.status, 400);
            assert_eq!(response.body, "Bad Request: Missing URL key");
            assert!(response.headers.is_empty());
        }
        Step::Search(search) => panic!("searched: {:?}", search),
    }
}

#[test]
fn chapters_of_a_story_come_in_reading_order() {
    let search = fetch_chapters_by_story_id("9".to_string(), 1, 50);
    assert_eq!(
        search.body(),
        "{\"from\":0,\"query\":{\"term\":{\"story_id\":\"9\"}},\"size\":50,\
         \"sort\":[{\"ordered\":{\"order\":\"asc\"}}]}"
    );
    assert_eq!(search.shaper, Shaper::Chapters(Pagination { page: 1, size: 50 }));
    assert_eq!(search.path(), "/chapters/_search");
}

#[test]
fn chapters_of_a_story_on_a_later_page() {
    let search = fetch_chapters_by_story_id("9".to_string(), 3, 20);
    assert_eq!(
        search.body(),
        "{\"from\":40,\"query\":{\"term\":{\"story_id\":\"9\"}},\"size\":20,\
         \"sort\":[{\"ordered\":{\"order\":\"asc\"}}]}"
    );
    let defaulted = fetch_chapters_by_story_id("9".to_string(), 0, 0);
    assert_eq!(defaulted.shaper, Shaper::Chapters(Pagination { page: 1, size: 50 }));
}

#[test]
fn chapter_detail_asks_for_both_keys() {
    let search = search_of(fetch_chapter_detail(parts("/chapters/detail_by_url/tale/one")));
    assert_eq!(
        search.body(),
        "{\"query\":{\"bool\":{\"must\":[\
         {\"term\":{\"story_url_key\":\"tale\"}},{\"term\":{\"url_key\":\"one\"}}]}}}"
    );
    assert_eq!(search.shaper, Shaper::Chapter);
    assert_eq!(search.path(), "/chapters/_search");
}

#[test]
fn chapter_detail_without_the_chapter_key_is_a_bad_request() {
    match fetch_chapter_detail(parts("/chapters/detail_by_url/storyonly")) {
        Step::Respond(response) => {
            assert_eq!(response.status, 400);
            assert_eq!(response.body, "Bad Request: Missing story/chapter keys");
        }
        Step::Search(search) => panic!("searched: {:?}", search),
    }
}

#[test]
fn categories_ask_for_all() {
    let search = fetch_categories(&QueryParams::parse(None));
    assert_eq!(search.body(), "{\"query\":{\"bool\":{\"must\":[]}},\"size\":1000}");
    assert_eq!(search.shaper, Shaper::Categories);
    assert_eq!(search.path(), "/categories/_search");
}

#[test]
fn categories_of_a_type() {
    let search = fetch_categories(&QueryParams::parse(Some("type_category=genre&page=4")));
    assert_eq!(
        search.body(),
        "{\"query\":{\"bool\":{\"must\":[{\"term\":{\"type_category\":\"genre\"}}]}},\"size\":1000}"
    );
}

#[test]
fn category_detail_asks_for_the_one_category() {
    let search = fetch_category_detail_by_url_key("fantasy".to_string());
    assert_eq!(search.body(), "{\"query\":{\"term\":{\"url_key\":\"fantasy\"}},\"size\":1}");
    assert_eq!(search.shaper, Shaper::Category);
    assert_eq!(search.path(), "/categories/_search");
}

#[test]
fn author_detail_asks_for_the_one_author() {
    let search = fetch_author_detail_by_url_key("jane-doe".to_string());
    assert_eq!(search.body(), "{\"query\":{\"term\":{\"url_key\":\"jane-doe\"}},\"size\":1}");
    assert_eq!(search.shaper, Shaper::Author);
    assert_eq!(search.path(), "/authors/_search");
}
