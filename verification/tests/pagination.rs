use std::cell::RefCell;

use stripe_core::collector::{Collector, Progress};
use stripe_core::error::{StripeError, CROSS_VERSION, EMPTY_PAGE};
use stripe_core::page::{List, NextPage};
use stripe_core::params::Object;
use stripe_core::path::{has_version_prefix, next_page_path};
use stripe_core::walker::{Step, Walker};

#[derive(Clone, Debug, PartialEq)]
struct Thing {
    id: String,
}

impl Object for Thing {
    type Id = String;

    fn id(&self) -> String {
        self.id.clone()
    }

    fn object(&self) -> &'static str {
        "thing"
    }
}

fn thing(id: &str) -> Thing {
    Thing { id: id.to_string() }
}

fn page(ids: &[&str], has_more: bool, url: &str, params: Option<&str>) -> List<Thing> {
    List {
        data: ids.iter().map(|id| thing(id)).collect(),
        has_more,
        total_count: None,
        url: url.to_string(),
        params: params.map(|p| p.to_string()),
    }
}

/// A transport that answers each request from a table and keeps the targets it was asked
/// for.
struct Mock {
    answers: Vec<(String, Result<List<Thing>, StripeError>)>,
    asked: RefCell<Vec<String>>,
}

impl Mock {
    fn new(answers: Vec<(&str, Result<List<Thing>, StripeError>)>) -> Mock {
        Mock {
            answers: answers.into_iter().map(|(p, a)| (p.to_string(), a)).collect(),
            asked: RefCell::new(Vec::new()),
        }
    }

    fn get(&mut self, path: &str) -> Result<List<Thing>, StripeError> {
        self.asked.borrow_mut().push(path.to_string());
        match self.answers.iter().position(|(p, _)| p == path) {
            Some(at) => self.answers.remove(at).1,
            None => Err(StripeError::Transport(format!("no answer for {}", path))),
        }
    }

    fn asked(&self) -> Vec<String> {
        self.asked.borrow().clone()
    }
}

fn walk(first: List<Thing>, mock: &mut Mock) -> Vec<Result<Thing, StripeError>> {
    let mut out = Vec::new();
    let mut walker = first.get_all();
    loop {
        match walker.advance() {
            Step::End => break,
            Step::Fail(error) => {
                out.push(Err(error));
                break;
            }
            Step::Yield { item, rest } => {
                out.push(Ok(item));
                walker = rest;
            }
            Step::Fetch(suspended) => {
                let response = mock.get(suspended.request().path.as_str());
                let (item, rest) = suspended.resume(response);
                out.push(Ok(item));
                walker = rest;
            }
        }
    }
    out
}

fn collect(first: List<Thing>, mock: &mut Mock) -> Result<Vec<Thing>, StripeError> {
    let mut collector = Collector::new(first.get_all());
    loop {
        match collector.advance() {
            Progress::Done(outcome) => return outcome,
            Progress::Fetch(awaiting) => {
                let response = mock.get(awaiting.request().path.as_str());
                collector = awaiting.resume(response);
            }
        }
    }
}

fn oks(ids: &[&str]) -> Vec<Result<Thing, StripeError>> {
    ids.iter().map(|id| Ok(thing(id))).collect()
}

#[test]
fn walk_over_two_pages_yields_all_items_in_order() {
    let first = page(&["a", "b"], true, "/v1/things", None);
    let mut mock = Mock::new(vec![(
        "things?starting_after=b",
        Ok(page(&["c"], false, "/v1/things", None)),
    )]);
    assert_eq!(walk(first, &mut mock), oks(&["a", "b", "c"]));
    assert_eq!(mock.asked(), vec!["things?starting_after=b".to_string()]);
}

#[test]
fn walk_over_three_pages_preserves_order() {
    let first = page(&["a", "b"], true, "/v1/things", None);
    let mut mock = Mock::new(vec![
        ("things?starting_after=b", Ok(page(&["c", "d", "e"], true, "/v1/things", None))),
        ("things?starting_after=e", Ok(page(&["f"], false, "/v1/things", None))),
    ]);
    assert_eq!(walk(first, &mut mock), oks(&["a", "b", "c", "d", "e", "f"]));
    assert_eq!(
        mock.asked(),
        vec!["things?starting_after=b".to_string(), "things?starting_after=e".to_string()]
    );
}

#[test]
fn walk_over_a_last_page_asks_nothing() {
    let first = page(&["a", "b", "c"], false, "/v1/things", None);
    let mut mock = Mock::new(vec![]);
    let out = walk(first, &mut mock);
    assert_eq!(out.len(), 3);
    assert_eq!(out, oks(&["a", "b", "c"]));
    assert!(mock.asked().is_empty());
}

#[test]
fn walk_over_an_empty_collection_ends_at_once() {
    let first = page(&[], false, "/v1/things", None);
    let mut mock = Mock::new(vec![]);
    assert_eq!(walk(first, &mut mock), vec![]);
    assert!(mock.asked().is_empty());
    match page(&[], false, "/v1/things", None).get_all().advance() {
        Step::End => {}
        _ => panic!("expected the walk to end"),
    }
}

#[test]
fn walk_reports_an_empty_page_that_announces_more() {
    let first = page(&[], true, "/v1/things", None);
    let mut mock = Mock::new(vec![]);
    assert_eq!(walk(first, &mut mock), vec![Err(StripeError::Unexpected(EMPTY_PAGE))]);
    assert!(mock.asked().is_empty());
}

#[test]
fn walk_reports_a_fetched_empty_page_that_announces_more() {
    let first = page(&["a"], true, "/v1/things", None);
    let mut mock =
        Mock::new(vec![("things?starting_after=a", Ok(page(&[], true, "/v1/things", None)))]);
    assert_eq!(
        walk(first, &mut mock),
        vec![Ok(thing("a")), Err(StripeError::Unexpected(EMPTY_PAGE))]
    );
}

#[test]
fn walk_ends_on_a_fetched_empty_last_page() {
    let first = page(&["a"], true, "/v1/things", None);
    let mut mock =
        Mock::new(vec![("things?starting_after=a", Ok(page(&[], false, "/v1/things", None)))]);
    assert_eq!(walk(first, &mut mock), oks(&["a"]));
}

#[test]
fn walk_yields_first_page_then_the_error_of_a_failed_fetch() {
    let first = page(&["a", "b"], true, "/v1/things", None);
    let mut mock = Mock::new(vec![(
        "things?starting_after=b",
        Err(StripeError::Transport("connection reset".to_string())),
    )]);
    assert_eq!(
        walk(first, &mut mock),
        vec![
            Ok(thing("a")),
            Ok(thing("b")),
            Err(StripeError::Transport("connection reset".to_string()))
        ]
    );
    assert_eq!(mock.asked().len(), 1);
}

#[test]
fn collect_returns_the_error_of_a_failed_fetch_and_no_items() {
    let first = page(&["a", "b"], true, "/v1/things", None);
    let mut mock = Mock::new(vec![(
        "things?starting_after=b",
        Err(StripeError::Transport("connection reset".to_string())),
    )]);
    assert_eq!(
        collect(first, &mut mock),
        Err(StripeError::Transport("connection reset".to_string()))
    );
}

#[test]
fn collect_returns_all_items_in_order() {
    let first = page(&["a", "b"], true, "/v1/things", None);
    let mut mock = Mock::new(vec![
        ("things?starting_after=b", Ok(page(&["c"], true, "/v1/things", None))),
        ("things?starting_after=c", Ok(page(&["d", "e"], false, "/v1/things", None))),
    ]);
    assert_eq!(
        collect(first, &mut mock),
        Ok(vec![thing("a"), thing("b"), thing("c"), thing("d"), thing("e")])
    );
    assert_eq!(mock.asked().len(), 2);
}

#[test]
fn collect_of_an_empty_collection_is_empty() {
    let mut mock = Mock::new(vec![]);
    assert_eq!(collect(page(&[], false, "/v1/things", None), &mut mock), Ok(vec![]));
    assert!(mock.asked().is_empty());
}

#[test]
fn collect_fails_on_a_page_of_another_version() {
    let first = page(&["a"], true, "/v2/things", None);
    let mut mock = Mock::new(vec![]);
    assert_eq!(collect(first, &mut mock), Err(StripeError::Unsupported(CROSS_VERSION)));
    assert!(mock.asked().is_empty());
}

#[test]
fn walk_over_a_page_of_another_version_yields_its_items_then_fails() {
    let first = page(&["a", "b"], true, "/v2/things", None);
    let mut mock = Mock::new(vec![]);
    assert_eq!(
        walk(first, &mut mock),
        vec![Ok(thing("a")), Ok(thing("b")), Err(StripeError::Unsupported(CROSS_VERSION))]
    );
    assert!(mock.asked().is_empty());
}

#[test]
fn continuation_starts_after_the_last_item_of_each_page() {
    let first = page(&["x1", "x2", "x3"], true, "/v1/things", None);
    let mut mock = Mock::new(vec![
        ("things?starting_after=x3", Ok(page(&["y1", "y2"], true, "/v1/things", None))),
        ("things?starting_after=y2", Ok(page(&["z1"], false, "/v1/things", None))),
    ]);
    walk(first, &mut mock);
    assert_eq!(
        mock.asked(),
        vec!["things?starting_after=x3".to_string(), "things?starting_after=y2".to_string()]
    );
}

#[test]
fn continuation_strips_the_version_prefix() {
    assert_eq!(
        next_page_path("/v1/widgets", "w_9", None),
        Ok("widgets?starting_after=w_9".to_string())
    );
}

#[test]
fn continuation_strips_a_repeated_version_prefix() {
    assert_eq!(
        next_page_path("/v1//v1/widgets", "w_9", None),
        Ok("widgets?starting_after=w_9".to_string())
    );
    assert_eq!(next_page_path("/v1/", "w_9", None), Ok("?starting_after=w_9".to_string()));
}

#[test]
fn continuation_without_the_version_prefix_is_unsupported() {
    for url in ["/v2/widgets", "widgets", "/v1", "", "v1/widgets", "/V1/widgets"] {
        assert_eq!(
            next_page_path(url, "w_9", None),
            Err(StripeError::Unsupported(CROSS_VERSION))
        );
    }
}

#[test]
fn continuation_joins_with_an_ampersand_where_a_query_exists() {
    assert_eq!(
        next_page_path("/v1/widgets?color=red", "w_9", None),
        Ok("widgets?color=red&starting_after=w_9".to_string())
    );
}

#[test]
fn continuation_appends_the_params_after_the_cursor() {
    assert_eq!(
        next_page_path("/v1/widgets", "w_9", Some("limit=5")),
        Ok("widgets?starting_after=w_9&limit=5".to_string())
    );
    assert_eq!(
        next_page_path("/v1/widgets?a=b", "w_9", Some("limit=5&x=y")),
        Ok("widgets?a=b&starting_after=w_9&limit=5&x=y".to_string())
    );
}

#[test]
fn continuation_leaves_out_empty_params() {
    assert_eq!(
        next_page_path("/v1/widgets", "w_9", Some("")),
        Ok("widgets?starting_after=w_9".to_string())
    );
}

#[test]
fn version_prefix_is_recognised() {
    assert!(has_version_prefix("/v1/things"));
    assert!(has_version_prefix("/v1/"));
    assert!(!has_version_prefix("/v1"));
    assert!(!has_version_prefix("v1/things"));
    assert!(!has_version_prefix("/v10/things"));
}

#[test]
fn get_next_keeps_the_params_for_the_answer() {
    let request = List::<Thing>::get_next("/v1/things", "b", Some("limit=5")).unwrap();
    assert_eq!(request.path, "things?starting_after=b&limit=5");
    assert_eq!(request.params, Some("limit=5".to_string()));
    let next = request.receive(Ok(page(&["c"], false, "/v1/things", None))).unwrap();
    assert_eq!(next.params, Some("limit=5".to_string()));
    assert_eq!(next.data, vec![thing("c")]);
    assert!(!next.has_more);
    assert_eq!(next.url, "/v1/things");
}

#[test]
fn get_next_of_another_version_is_unsupported() {
    match List::<Thing>::get_next("/v3/things", "b", None) {
        Err(error) => assert_eq!(error, StripeError::Unsupported(CROSS_VERSION)),
        Ok(_) => panic!("expected no request"),
    }
}

#[test]
fn receive_hands_on_an_error_unchanged() {
    let request = List::<Thing>::get_next("/v1/things", "b", None).unwrap();
    match request.receive::<Thing>(Err(StripeError::Serialize("bad body".to_string()))) {
        Err(error) => assert_eq!(error, StripeError::Serialize("bad body".to_string())),
        Ok(_) => panic!("expected the error"),
    }
}

#[test]
fn params_are_preserved_across_pages() {
    let first = page(&["a"], true, "/v1/things", None)
        .params(Ok("limit=5".to_string()))
        .unwrap();
    assert_eq!(first.params, Some("limit=5".to_string()));
    let mut mock = Mock::new(vec![
        ("things?starting_after=a&limit=5", Ok(page(&["b"], true, "/v1/things", None))),
        ("things?starting_after=b&limit=5", Ok(page(&["c"], false, "/v1/things", None))),
    ]);
    assert_eq!(walk(first, &mut mock), oks(&["a", "b", "c"]));
    assert_eq!(
        mock.asked(),
        vec![
            "things?starting_after=a&limit=5".to_string(),
            "things?starting_after=b&limit=5".to_string()
        ]
    );
}

#[test]
fn params_encoded_as_a_query_string_travel_with_the_request() {
    let mut query = std::collections::BTreeMap::new();
    query.insert("limit", 5);
    let first =
        page(&["a"], true, "/v1/things", None).params(serde_qs::to_string(&query)).unwrap();
    assert_eq!(first.params, Some("limit=5".to_string()));
    match first.next() {
        Ok(NextPage::Request(request)) => {
            assert_eq!(request.path, "things?starting_after=a&limit=5");
        }
        _ => panic!("expected a request"),
    }
}

#[test]
fn params_reports_a_failed_encoding() {
    let outcome =
        page(&["a"], true, "/v1/things", None).params(Err(serde_qs::Error::Unsupported));
    match outcome {
        Err(error) => assert_eq!(
            error,
            StripeError::Serialize("unsupported type for serialization".to_string())
        ),
        Ok(_) => panic!("expected the error"),
    }
}

#[test]
fn params_reports_what_cannot_be_encoded() {
    let outcome = page(&["a"], true, "/v1/things", None).params(serde_qs::to_string(&5));
    match outcome {
        Err(StripeError::Serialize(_)) => {}
        _ => panic!("expected a report of the encoding"),
    }
}

#[test]
fn encoding_and_decoding_errors_carry_the_text_of_their_cause() {
    let encoding = StripeError::encoding(&serde_qs::Error::Custom("no keys".to_string()));
    assert_eq!(encoding, StripeError::Serialize("failed with reason: no keys".to_string()));
    let cause = serde_json::from_str::<serde_json::Value>("{").unwrap_err();
    let decoding = StripeError::decoding(&cause);
    assert_eq!(decoding, StripeError::Serialize(cause.to_string()));
    assert!(decoding.message().contains("EOF"));
}

#[test]
fn next_asks_for_the_page_after_the_last_item() {
    let first = page(&["a", "b"], true, "/v1/things", Some("limit=2"));
    match first.next() {
        Ok(NextPage::Request(request)) => {
            assert_eq!(request.path, "things?starting_after=b&limit=2");
            assert_eq!(request.params, Some("limit=2".to_string()));
        }
        _ => panic!("expected a request"),
    }
}

#[test]
fn next_asks_even_where_nothing_more_is_announced() {
    match page(&["a", "b"], false, "/v1/things", None).next() {
        Ok(NextPage::Request(request)) => {
            assert_eq!(request.path, "things?starting_after=b");
            assert_eq!(request.params, None);
        }
        _ => panic!("expected a request"),
    }
}

#[test]
fn next_of_an_empty_last_page_is_known() {
    let mut first = page(&[], false, "/v1/things", Some("limit=2"));
    first.total_count = Some(12);
    match first.next() {
        Ok(NextPage::Known(next)) => {
            assert!(next.data.is_empty());
            assert!(!next.has_more);
            assert_eq!(next.total_count, Some(12));
            assert_eq!(next.url, "/v1/things");
            assert_eq!(next.params, Some("limit=2".to_string()));
        }
        _ => panic!("expected a page"),
    }
}

#[test]
fn next_of_an_empty_page_that_announces_more_is_an_error() {
    match page(&[], true, "/v1/things", None).next() {
        Err(error) => assert_eq!(error, StripeError::Unexpected(EMPTY_PAGE)),
        Ok(_) => panic!("expected an error"),
    }
}

#[test]
fn next_of_another_version_is_unsupported() {
    match page(&["a"], true, "/v2/things", None).next() {
        Err(error) => assert_eq!(error, StripeError::Unsupported(CROSS_VERSION)),
        Ok(_) => panic!("expected an error"),
    }
}

#[test]
fn default_list_is_empty() {
    let list: List<Thing> = List::default();
    assert!(list.data.is_empty());
    assert!(!list.has_more);
    assert_eq!(list.total_count, None);
    assert_eq!(list.url, "");
    assert_eq!(list.params, None);
}

#[test]
fn clone_of_a_list_holds_the_same() {
    let mut list = page(&["a", "b"], true, "/v1/things", Some("limit=2"));
    list.total_count = Some(3);
    let copy = list.clone();
    assert_eq!(copy.data, list.data);
    assert_eq!(copy.has_more, list.has_more);
    assert_eq!(copy.total_count, list.total_count);
    assert_eq!(copy.url, list.url);
    assert_eq!(copy.params, list.params);
}

#[test]
fn walker_new_walks_from_the_first_item() {
    match Walker::new(page(&["a", "b"], false, "/v1/things", None)).advance() {
        Step::Yield { item, .. } => assert_eq!(item, thing("a")),
        _ => panic!("expected an item"),
    }
}

#[test]
fn error_message_is_the_text_it_carries() {
    assert_eq!(StripeError::Unsupported(CROSS_VERSION).message(), CROSS_VERSION);
    assert_eq!(StripeError::Unexpected(EMPTY_PAGE).message(), EMPTY_PAGE);
    assert_eq!(StripeError::Transport("timeout".to_string()).message(), "timeout");
    assert_eq!(StripeError::Serialize("bad".to_string()).message(), "bad");
}
