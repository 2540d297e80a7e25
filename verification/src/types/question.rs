//! Question records and their identifiers.

use crate::decimal::{decimal_digits, lemma_decimal_digits_are_digits, write_number};
use vstd::prelude::*;

verus! {

/// The identifier of a question: a text that is never empty.
#[derive(Debug, PartialEq, Eq, Hash)]
pub struct QuestionId(String);

/// A stored question. Its identity is `id`.
#[derive(Debug, PartialEq, Eq)]
pub struct Question {
    pub id: QuestionId,
    pub title: String,
    pub content: String,
    pub tags: Option<Vec<String>>,
}

/// What a caller supplies to create a question: a `Question` without its identity, which
/// the store assigns.
#[derive(Debug, PartialEq, Eq)]
pub struct NewQuestion {
    pub title: String,
    pub content: String,
    pub tags: Option<Vec<String>>,
}

pub struct QuestionView {
    pub id: Seq<char>,
    pub title: Seq<char>,
    pub content: Seq<char>,
    pub tags: Option<Seq<Seq<char>>>,
}

pub struct NewQuestionView {
    pub title: Seq<char>,
    pub content: Seq<char>,
    pub tags: Option<Seq<Seq<char>>>,
}

impl View for QuestionId {
    type V = Seq<char>;

    closed spec fn view(&self) -> Seq<char> {
        self.0@
    }
}

impl View for Question {
    type V = QuestionView;

    open spec fn view(&self) -> QuestionView {
        QuestionView {
            id: self.id@,
            title: self.title@,
            content: self.content@,
            tags: self.tags.deep_view(),
        }
    }
}

impl View for NewQuestion {
    type V = NewQuestionView;

    open spec fn view(&self) -> NewQuestionView {
        NewQuestionView {
            title: self.title@,
            content: self.content@,
            tags: self.tags.deep_view(),
        }
    }
}

/// The questions of a list, each as what it holds.
pub open spec fn question_views(questions: Seq<Question>) -> Seq<QuestionView> {
    questions.map_values(|q: Question| q@)
}

impl NewQuestionView {
    /// The question that this input becomes under the identifier `id`.
    pub open spec fn with_id(self, id: Seq<char>) -> QuestionView {
        QuestionView { id, title: self.title, content: self.content, tags: self.tags }
    }
}

impl QuestionView {
    /// The same question under the identifier `id`.
    pub open spec fn with_id(self, id: Seq<char>) -> QuestionView {
        QuestionView { id, title: self.title, content: self.content, tags: self.tags }
    }
}

/// The text that the standard library writes for `tags` in its debugging format: `None`, or
/// `Some` round a bracketed list of the tags, each in double quotes with its special
/// characters escaped.
pub uninterp spec fn debug_tags(tags: Option<Seq<Seq<char>>>) -> Seq<char>;

/// A question as it is shown, with `tags` for the text of its tags.
pub open spec fn question_text(question: QuestionView, tags: Seq<char>) -> Seq<char> {
    "id: "@ + question.id + ", title: "@ + question.title + ", content: "@ + question.content
        + ", tags: "@ + tags
}

/// Writes `tags` in the debugging format of the standard library, by `format!` with `{:?}`,
/// which calls `<Option<Vec<String>> as Debug>::fmt`. The contract only gives the result its
/// name: it is the same text for the same tags.
#[verifier::external_body]
fn format_tags(tags: &Option<Vec<String>>) -> (text: String)
    ensures
        text@ == debug_tags(tags.deep_view()),
{
    format!("{:?}", tags)
}

/// Copies a list of texts.
pub fn clone_texts(texts: &Vec<String>) -> (copy: Vec<String>)
    ensures
        copy.deep_view() == texts.deep_view(),
{
    let mut copy: Vec<String> = Vec::new();
    let mut i: usize = 0;
    while i < texts.len()
        invariant
            i <= texts.len(),
            copy.len() == i,
            forall|j: int| 0 <= j < i ==> copy[j]@ == texts[j]@,
        decreases texts.len() - i,
    {
        copy.push(texts[i].clone());
        i = i + 1;
    }
    assert(copy.deep_view() =~= texts.deep_view());
    copy
}

/// Copies the tags of a question.
pub fn clone_tags(tags: &Option<Vec<String>>) -> (copy: Option<Vec<String>>)
    ensures
        copy.deep_view() == tags.deep_view(),
{
    match tags {
        Some(texts) => Some(clone_texts(texts)),
        None => None,
    }
}

impl QuestionId {
    #[verifier::type_invariant]
    closed spec fn is_not_empty(self) -> bool {
        self.0@.len() > 0
    }

    /// Makes an identifier of `text`, unless `text` is empty.
    pub fn new(text: String) -> (id: Option<QuestionId>)
        ensures
            text@.len() == 0 <==> id is None,
            id matches Some(id) ==> id@ == text@,
    {
        if text.as_str().is_empty() {
            None
        } else {
            Some(QuestionId(text))
        }
    }

    /// The identifier that writes the number `n` in decimal.
    pub fn from_number(n: usize) -> (id: QuestionId)
        ensures
            id@ == decimal_digits(n as nat),
    {
        let text = write_number(n);
        proof {
            lemma_decimal_digits_are_digits(n as nat);
        }
        QuestionId(text)
    }

    /// The text of the identifier.
    pub fn as_str(&self) -> (text: &str)
        ensures
            text@ == self@,
            text@.len() > 0,
    {
        proof {
            use_type_invariant(self);
        }
        self.0.as_str()
    }

    /// Whether `self` and `other` are the same identifier.
    pub fn same_as(&self, other: &QuestionId) -> (same: bool)
        ensures
            same == (self@ == other@),
    {
        self.0 == other.0
    }

    /// The identifier with its label, as it is shown.
    pub fn to_string(&self) -> (text: String)
        ensures
            text@ == "id: "@ + self@,
    {
        let mut text = String::from_str("id: ");
        text.append(self.0.as_str());
        text
    }
}

impl Question {
    /// The question as it is shown, with `tags` for the text of its tags.
    pub fn describe(&self, tags: &str) -> (text: String)
        ensures
            text@ == question_text(self@, tags@),
    {
        let mut text = self.id.to_string();
        text.append(", title: ");
        text.append(self.title.as_str());
        text.append(", content: ");
        text.append(self.content.as_str());
        text.append(", tags: ");
        text.append(tags);
        text
    }

    /// The question as it is shown: its identifier, title and content, and its tags in the
    /// debugging format.
    pub fn to_string(&self) -> (text: String)
        ensures
            text@ == question_text(self@, debug_tags(self@.tags)),
    {
        let tags = format_tags(&self.tags);
        self.describe(tags.as_str())
    }
}

impl Clone for QuestionId {
    fn clone(&self) -> (copy: Self)
        ensures
            copy@ == self@,
    {
        proof {
            use_type_invariant(self);
        }
        QuestionId(self.0.clone())
    }
}

impl Clone for Question {
    fn clone(&self) -> (copy: Self)
        ensures
            copy@ == self@,
    {
        Question {
            id: self.id.clone(),
            title: self.title.clone(),
            content: self.content.clone(),
            tags: clone_tags(&self.tags),
        }
    }
}

impl Clone for NewQuestion {
    fn clone(&self) -> (copy: Self)
        ensures
            copy@ == self@,
    {
        NewQuestion {
            title: self.title.clone(),
            content: self.content.clone(),
            tags: clone_tags(&self.tags),
        }
    }
}

} // verus!
