use question_api::types::account::{Account, AccountId, NewAccount};
use question_api::types::question::{clone_tags, clone_texts, NewQuestion, Question, QuestionId};

fn id(text: &str) -> QuestionId {
    QuestionId::new(text.to_string()).unwrap()
}

fn sample(tags: Option<Vec<String>>) -> Question {
    Question { id: id("1"), title: "T".to_string(), content: "C".to_string(), tags }
}

#[test]
fn an_identifier_is_never_empty() {
    assert_eq!(QuestionId::new(String::new()), None);
    assert!(QuestionId::new(" ".to_string()).is_some());
    assert_eq!(id("QI0001").as_str(), "QI0001");
}

#[test]
fn identifiers_compare_by_their_text() {
    assert!(id("1").same_as(&id("1")));
    assert!(!id("1").same_as(&id("01")));
    assert!(!id("a").same_as(&id("A")));
    assert_eq!(id("7"), id("7"));
}

#[test]
fn an_identifier_is_shown_with_its_label() {
    assert_eq!(id("42").to_string(), "id: 42");
}

#[test]
fn a_question_without_tags_is_shown() {
    assert_eq!(sample(None).to_string(), "id: 1, title: T, content: C, tags: None");
}

#[test]
fn a_question_with_tags_is_shown() {
    let tags = Some(vec!["faq".to_string(), "a \"b\"".to_string()]);
    assert_eq!(
        sample(tags).to_string(),
        "id: 1, title: T, content: C, tags: Some([\"faq\", \"a \\\"b\\\"\"])"
    );
    assert_eq!(sample(Some(vec![])).to_string(), "id: 1, title: T, content: C, tags: Some([])");
}

#[test]
fn describe_puts_the_given_text_for_the_tags() {
    assert_eq!(
        sample(Some(vec!["x".to_string()])).describe("<tags>"),
        "id: 1, title: T, content: C, tags: <tags>"
    );
}

#[test]
fn a_copy_of_a_question_equals_it() {
    let original = sample(Some(vec!["a".to_string(), "b".to_string()]));
    assert_eq!(original.clone(), original);
    let draft = NewQuestion { title: "t".to_string(), content: "c".to_string(), tags: None };
    assert_eq!(draft.clone(), draft);
    assert_eq!(id("9").clone(), id("9"));
}

#[test]
fn tags_are_copied_in_order() {
    let texts = vec!["a".to_string(), "".to_string(), "c".to_string()];
    assert_eq!(clone_texts(&texts), texts);
    assert_eq!(clone_tags(&Some(texts.clone())), Some(texts));
    assert_eq!(clone_tags(&None), None);
}

#[test]
fn accounts_hold_their_fields() {
    let account =
        Account { id: AccountId(3), email: "a@b.c".to_string(), password: "pw".to_string() };
    let new = NewAccount { email: "a@b.c".to_string(), password: "pw".to_string() };
    assert_eq!(account.id, AccountId(3));
    assert_eq!(account.clone().email, new.email);
    assert_eq!(account.password, new.clone().password);
}
