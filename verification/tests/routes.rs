use question_api::decimal::ParseIntFailure;
use question_api::error::{return_error, EntityKind, Error, ModerationFault, Rejection};
use question_api::error::{Response, StoreFault};
use question_api::profanity::{check_profanity, ServiceReply};
use question_api::routes::question::{add_question, delete_question, get_questions};
use question_api::routes::question::{update_question, Progress, Screening};
use question_api::store::Store;
use question_api::types::pagination::QueryParams;
use question_api::types::question::{NewQuestion, Question, QuestionId};

fn query(pairs: &[(&str, &str)]) -> QueryParams {
    let mut params = QueryParams::new();
    for (name, value) in pairs {
        params.insert(name.to_string(), value.to_string());
    }
    params
}

fn id(text: &str) -> QuestionId {
    QuestionId::new(text.to_string()).unwrap()
}

fn draft(title: &str, content: &str) -> NewQuestion {
    NewQuestion { title: title.to_string(), content: content.to_string(), tags: None }
}

fn store_of(n: usize) -> Store {
    let mut store = Store::new();
    for i in 0..n {
        store.create(draft(&format!("q{}", i), "c")).unwrap();
    }
    store
}

fn screened(text: &str) -> ServiceReply {
    ServiceReply::Answer { status: 200, censored: Some(text.to_string()) }
}

fn moderation_failure(cause: ModerationFault) -> Error {
    Error::ModerationServiceError { cause }
}

fn not_found(id_text: &str) -> Error {
    Error::StoreWriteError {
        entity_kind: EntityKind::Question,
        id: Some(id_text.to_string()),
        cause: StoreFault::NotFound,
    }
}

fn titles(page: &[Question]) -> Vec<String> {
    page.iter().map(|q| q.title.clone()).collect()
}

#[test]
fn a_reply_with_success_and_text_is_the_screened_text() {
    assert_eq!(check_profanity(screened("a **** word")), Ok("a **** word".to_string()));
    assert_eq!(
        check_profanity(ServiceReply::Answer { status: 299, censored: Some(String::new()) }),
        Ok(String::new())
    );
}

#[test]
fn a_call_without_an_answer_is_a_moderation_failure() {
    assert_eq!(
        check_profanity(ServiceReply::Failure { detail: "timed out".to_string() }),
        Err(moderation_failure(ModerationFault::Transport { detail: "timed out".to_string() }))
    );
}

#[test]
fn an_answer_outside_the_success_range_is_a_moderation_failure() {
    for status in [100u16, 199, 300, 301, 400, 401, 404, 500, 503] {
        assert_eq!(
            check_profanity(ServiceReply::Answer { status, censored: Some("text".to_string()) }),
            Err(moderation_failure(ModerationFault::Status { code: status }))
        );
        assert_eq!(
            check_profanity(ServiceReply::Answer { status, censored: None }),
            Err(moderation_failure(ModerationFault::Status { code: status }))
        );
    }
}

#[test]
fn a_body_that_cannot_be_read_is_a_moderation_failure() {
    assert_eq!(
        check_profanity(ServiceReply::Answer { status: 200, censored: None }),
        Err(moderation_failure(ModerationFault::Malformed))
    );
}

#[test]
fn without_parameters_every_question_is_listed() {
    let store = store_of(3);
    let page = get_questions(query(&[]), &store).unwrap();
    assert_eq!(titles(&page), vec!["q0", "q1", "q2"]);
    assert!(get_questions(query(&[]), &Store::new()).unwrap().is_empty());
}

#[test]
fn parameters_other_than_start_and_end_ask_for_everything() {
    let store = store_of(2);
    let page = get_questions(query(&[("sort", "asc")]), &store).unwrap();
    assert_eq!(titles(&page), vec!["q0", "q1"]);
}

#[test]
fn the_first_of_two_records_is_listed_for_start_0_end_1() {
    let store = store_of(2);
    let page = get_questions(query(&[("start", "0"), ("end", "1")]), &store).unwrap();
    assert_eq!(page, store.list(0, 1));
    assert_eq!(titles(&page), vec!["q0"]);
}

#[test]
fn a_window_lists_the_records_between_start_and_end() {
    let store = store_of(5);
    let page = get_questions(query(&[("start", "1"), ("end", "4")]), &store).unwrap();
    assert_eq!(titles(&page), vec!["q1", "q2", "q3"]);
}

#[test]
fn start_equal_to_end_lists_nothing() {
    let store = store_of(5);
    assert!(get_questions(query(&[("start", "2"), ("end", "2")]), &store).unwrap().is_empty());
}

#[test]
fn start_0_and_end_at_the_length_list_everything() {
    let store = store_of(5);
    let page = get_questions(query(&[("start", "0"), ("end", "5")]), &store).unwrap();
    assert_eq!(page, store.list(0, 5));
    assert_eq!(page.len(), 5);
}

#[test]
fn an_end_beyond_the_listing_is_cut_to_it() {
    let store = store_of(3);
    let page = get_questions(query(&[("start", "1"), ("end", "100")]), &store).unwrap();
    assert_eq!(titles(&page), vec!["q1", "q2"]);
}

#[test]
fn a_start_beyond_the_end_lists_nothing() {
    let store = store_of(3);
    assert!(get_questions(query(&[("start", "2"), ("end", "1")]), &store).unwrap().is_empty());
    assert!(get_questions(query(&[("start", "7"), ("end", "9")]), &store).unwrap().is_empty());
}

#[test]
fn one_parameter_alone_is_refused() {
    let store = store_of(3);
    assert_eq!(get_questions(query(&[("start", "1")]), &store), Err(Error::MissingParameters));
    assert_eq!(get_questions(query(&[("end", "1")]), &store), Err(Error::MissingParameters));
}

#[test]
fn a_parameter_that_is_no_number_is_refused() {
    let store = store_of(3);
    assert_eq!(
        get_questions(query(&[("start", "a"), ("end", "1")]), &store),
        Err(Error::ParameterParseError {
            field: "start".to_string(),
            raw_value: "a".to_string(),
            cause: ParseIntFailure::InvalidDigit,
        })
    );
}

#[test]
fn a_question_is_created_after_both_texts_were_screened() {
    let mut store = Store::new();
    let screening = Screening::begin(draft("Hi", "World"));
    assert_eq!(screening.text(), "Hi");
    let screening = match add_question(&mut store, screening, screened("Hi")) {
        Progress::Pending(next) => next,
        other => panic!("unexpected {:?}", other),
    };
    assert_eq!(store.len(), 0);
    assert_eq!(screening.text(), "World");
    let created = match add_question(&mut store, screening, screened("World")) {
        Progress::Created(question) => question,
        other => panic!("unexpected {:?}", other),
    };
    assert_eq!(
        created,
        Question {
            id: id("1"),
            title: "Hi".to_string(),
            content: "World".to_string(),
            tags: None,
        }
    );
    assert_eq!(store.list(0, 1), vec![created]);
}

#[test]
fn the_screened_texts_are_stored_in_place_of_the_submitted_ones() {
    let mut store = store_of(1);
    let input = NewQuestion {
        title: "A darn title".to_string(),
        content: "Some heck".to_string(),
        tags: Some(vec!["x".to_string()]),
    };
    let first = add_question(&mut store, Screening::begin(input.clone()), screened("A **** title"));
    assert_eq!(
        first,
        Progress::Pending(Screening::Content { title: "A **** title".to_string(), draft: input })
    );
    let second = match first {
        Progress::Pending(next) => add_question(&mut store, next, screened("Some ****")),
        other => panic!("unexpected {:?}", other),
    };
    assert_eq!(
        second,
        Progress::Created(Question {
            id: id("2"),
            title: "A **** title".to_string(),
            content: "Some ****".to_string(),
            tags: Some(vec!["x".to_string()]),
        })
    );
    assert_eq!(store.len(), 2);
}

#[test]
fn a_failure_on_the_title_ends_the_creation_and_stores_nothing() {
    let mut store = store_of(2);
    let before = store.list(0, 2);
    let progress = add_question(
        &mut store,
        Screening::begin(draft("bad", "fine")),
        ServiceReply::Answer { status: 500, censored: None },
    );
    assert_eq!(
        progress,
        Progress::Failed(moderation_failure(ModerationFault::Status { code: 500 }))
    );
    assert_eq!(store.list(0, 10), before);
}

#[test]
fn a_failure_on_the_content_ends_the_creation_and_stores_nothing() {
    let mut store = store_of(2);
    let before = store.list(0, 2);
    let next = match add_question(&mut store, Screening::begin(draft("fine", "bad")), screened("fine"))
    {
        Progress::Pending(next) => next,
        other => panic!("unexpected {:?}", other),
    };
    let progress = add_question(
        &mut store,
        next,
        ServiceReply::Failure { detail: "connection reset".to_string() },
    );
    assert_eq!(
        progress,
        Progress::Failed(moderation_failure(ModerationFault::Transport {
            detail: "connection reset".to_string()
        }))
    );
    assert_eq!(store.list(0, 10), before);
    assert_eq!(store.create(draft("later", "c")).unwrap().id, id("3"));
}

#[test]
fn a_store_without_identifiers_left_fails_the_creation() {
    let last = Question {
        id: id(&(usize::MAX - 1).to_string()),
        title: "last".to_string(),
        content: "c".to_string(),
        tags: None,
    };
    let mut store = Store::init(vec![last]).unwrap();
    let screening = Screening::Content { title: "t".to_string(), draft: draft("t", "c") };
    assert_eq!(
        add_question(&mut store, screening, screened("c")),
        Progress::Failed(Error::StoreWriteError {
            entity_kind: EntityKind::Question,
            id: None,
            cause: StoreFault::Unavailable,
        })
    );
    assert_eq!(store.len(), 1);
}

#[test]
fn update_question_replaces_the_record_under_the_identifier_of_the_path() {
    let mut store = store_of(2);
    let body = Question {
        id: id("1"),
        title: "new title".to_string(),
        content: "new content".to_string(),
        tags: Some(vec!["t".to_string()]),
    };
    let stored = update_question("1".to_string(), &mut store, body.clone()).unwrap();
    assert_eq!(stored, body);
    assert_eq!(store.list(0, 1), vec![body]);
}

#[test]
fn update_question_of_what_is_not_there_fails() {
    let mut store = store_of(2);
    let body = Question {
        id: id("5"),
        title: "t".to_string(),
        content: "c".to_string(),
        tags: None,
    };
    assert_eq!(update_question("5".to_string(), &mut store, body.clone()), Err(not_found("5")));
    assert_eq!(update_question(String::new(), &mut store, body), Err(not_found("")));
    assert_eq!(titles(&store.list(0, 2)), vec!["q0", "q1"]);
}

#[test]
fn delete_question_confirms_with_the_identifier() {
    let mut store = store_of(3);
    assert_eq!(
        delete_question("2".to_string(), &mut store),
        Ok(Response { status: 200, body: "Question 2 deleted".to_string() })
    );
    assert_eq!(titles(&store.list(0, 3)), vec!["q0", "q2"]);
}

#[test]
fn delete_question_of_what_is_not_there_is_answered_404_naming_it() {
    let mut store = store_of(1);
    let failure = delete_question("42".to_string(), &mut store).unwrap_err();
    assert_eq!(failure, not_found("42"));
    assert_eq!(
        return_error(&Rejection::Domain(failure)),
        Response { status: 404, body: "Question 42 not found".to_string() }
    );
    assert_eq!(store.len(), 1);
    assert_eq!(delete_question(String::new(), &mut store), Err(not_found("")));
}

#[test]
fn after_delete_question_update_and_delete_fail() {
    let mut store = store_of(2);
    assert!(delete_question("1".to_string(), &mut store).is_ok());
    let body = Question {
        id: id("1"),
        title: "t".to_string(),
        content: "c".to_string(),
        tags: None,
    };
    assert_eq!(update_question("1".to_string(), &mut store, body), Err(not_found("1")));
    assert_eq!(delete_question("1".to_string(), &mut store), Err(not_found("1")));
}
