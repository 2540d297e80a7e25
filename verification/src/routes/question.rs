//! The handlers of the question routes: what each request does to the store, and what it
//! answers.

use crate::error::{Error, ErrorView, Response, ResponseView, StoreFault, OK};
use crate::profanity::{check_profanity, check_profanity_spec, ServiceReply, ServiceReplyView};
use crate::decimal::{decimal_digits, parse_number_spec, ParseIntFailure};
use crate::store::{lemma_create_is_fresh, lemma_delete_removes_identifier};
use crate::store::{lemma_list_within_bounds, write_error, Store, StoreView};
use crate::types::pagination::lemma_two_numbers_give_the_window;
use crate::types::pagination::{extract_pagination, extract_pagination_spec, QueryParams};
use crate::types::question::{question_views, NewQuestion, NewQuestionView, Question};
use crate::types::question::{QuestionId, QuestionView};
use vstd::prelude::*;

verus! {

/// Where the creation of a question stands: which of its texts is with the moderation
/// service.
#[derive(Debug, PartialEq, Eq)]
pub enum Screening {
    /// The title is being screened.
    Title { draft: NewQuestion },
    /// The title came back as `title`, and the content is being screened.
    Content { title: String, draft: NewQuestion },
}

/// What a step of the creation of a question leads to.
#[derive(Debug, PartialEq, Eq)]
pub enum Progress {
    /// Another text has to be screened before the question can be stored.
    Pending(Screening),
    /// The question was stored.
    Created(Question),
    /// The creation failed, and nothing was stored.
    Failed(Error),
}

#[allow(inconsistent_fields)]
pub enum ScreeningView {
    Title { draft: NewQuestionView },
    Content { title: Seq<char>, draft: NewQuestionView },
}

pub enum ProgressView {
    Pending(ScreeningView),
    Created(QuestionView),
    Failed(ErrorView),
}

impl View for Screening {
    type V = ScreeningView;

    open spec fn view(&self) -> ScreeningView {
        match *self {
            Screening::Title { draft } => ScreeningView::Title { draft: draft@ },
            Screening::Content { title, draft } => ScreeningView::Content {
                title: title@,
                draft: draft@,
            },
        }
    }
}

impl View for Progress {
    type V = ProgressView;

    open spec fn view(&self) -> ProgressView {
        match *self {
            Progress::Pending(screening) => ProgressView::Pending(screening@),
            Progress::Created(question) => ProgressView::Created(question@),
            Progress::Failed(error) => ProgressView::Failed(error@),
        }
    }
}

impl ScreeningView {
    /// The text that the moderation service has to screen next.
    pub open spec fn text(self) -> Seq<char> {
        match self {
            ScreeningView::Title { draft } => draft.title,
            ScreeningView::Content { title, draft } => draft.content,
        }
    }
}

impl Screening {
    /// The start of the creation of a question from `draft`: its title is screened first.
    pub fn begin(draft: NewQuestion) -> (screening: Screening)
        ensures
            screening@ == (ScreeningView::Title { draft: draft@ }),
    {
        Screening::Title { draft }
    }

    /// The text that the moderation service has to screen next.
    pub fn text(&self) -> (text: String)
        ensures
            text@ == self@.text(),
    {
        match self {
            Screening::Title { draft } => draft.title.clone(),
            Screening::Content { title, draft } => draft.content.clone(),
        }
    }
}

/// Whether the query asks for a window of the listing: whether it names `start` or `end`.
pub open spec fn asks_for_window(params: Map<Seq<char>, Seq<char>>) -> bool {
    params.contains_key("start"@) || params.contains_key("end"@)
}

/// What a listing request answers: the whole listing where the query names neither `start`
/// nor `end`, else the window that both together ask for, cut to what the listing has.
pub open spec fn get_questions_spec(params: Map<Seq<char>, Seq<char>>, store: StoreView) -> Result<
    Seq<QuestionView>,
    ErrorView,
> {
    if !asks_for_window(params) {
        Ok(store.questions)
    } else {
        match extract_pagination_spec(params) {
            Ok(window) => Ok(store.list(window.offset as nat, window.limit as nat)),
            Err(e) => Err(e),
        }
    }
}

/// Lists the questions that the query `params` asks for. Fails only where the query names
/// `start` or `end` and does not give both as numbers.
pub fn get_questions(params: QueryParams, store: &Store) -> (r: Result<
    Vec<Question>,
    Error,
>)
    ensures
        match get_questions_spec(params@, store@) {
            Ok(listing) => r matches Ok(page) && question_views(page@) == listing,
            Err(e) => r matches Err(err) && err@ == e,
        },
{
    if !params.contains_key("start") && !params.contains_key("end") {
        let page = store.list(0, store.len());
        assert(store@.list(0, store@.questions.len()) =~= store@.questions);
        Ok(page)
    } else {
        match extract_pagination(params) {
            Ok(window) => Ok(store.list(window.offset, window.limit)),
            Err(e) => Err(e),
        }
    }
}

/// What a step of the creation of a question leads to, and what it leaves in the store.
///
/// A reply that is a failure of the moderation service ends the creation. A screened title
/// leads on to the screening of the content. A screened content completes the question, with
/// both screened texts in place of the submitted ones, and it is stored.
pub open spec fn add_question_spec(
    store: StoreView,
    screening: ScreeningView,
    reply: ServiceReplyView,
) -> (StoreView, ProgressView) {
    match check_profanity_spec(reply) {
        Err(e) => (store, ProgressView::Failed(e)),
        Ok(text) => match screening {
            ScreeningView::Title { draft } => (
                store,
                ProgressView::Pending(ScreeningView::Content { title: text, draft }),
            ),
            ScreeningView::Content { title, draft } => {
                let screened = NewQuestionView { title, content: text, tags: draft.tags };
                if store.can_create() {
                    (store.after_create(screened), ProgressView::Created(store.created(screened)))
                } else {
                    (store, ProgressView::Failed(write_error(None, StoreFault::Unavailable)))
                }
            },
        },
    }
}

/// Takes the creation of a question one step on, with the reply of the moderation service
/// to the text that was last sent to it. The store changes only when the question is
/// created: a failure leaves it as it was.
pub fn add_question(store: &mut Store, screening: Screening, reply: ServiceReply) -> (progress:
    Progress)
    ensures
        (final(store)@, progress@) == add_question_spec(old(store)@, screening@, reply@),
        !(progress is Created) ==> final(store)@ == old(store)@,
{
    let text = match check_profanity(reply) {
        Ok(text) => text,
        Err(e) => {
            return Progress::Failed(e);
        },
    };
    match screening {
        Screening::Title { draft } => Progress::Pending(Screening::Content { title: text, draft }),
        Screening::Content { title, draft } => {
            let screened = NewQuestion { title, content: text, tags: draft.tags };
            match store.create(screened) {
                Ok(question) => Progress::Created(question),
                Err(e) => Progress::Failed(e),
            }
        },
    }
}

/// What an update request answers, and what it leaves in the store.
pub open spec fn update_question_spec(
    id: Seq<char>,
    store: StoreView,
    question: QuestionView,
) -> (StoreView, Result<QuestionView, ErrorView>) {
    if store.holds(id) {
        (store.after_update(id, question), Ok(question.with_id(id)))
    } else {
        (store, Err(write_error(Some(id), StoreFault::NotFound)))
    }
}

/// Replaces the question with the identifier `id` by `question`, and answers with the record
/// as it is stored. Fails, and changes nothing, where the store has no such question.
pub fn update_question(id: String, store: &mut Store, question: Question) -> (r: Result<
    Question,
    Error,
>)
    ensures
        match update_question_spec(id@, old(store)@, question@).1 {
            Ok(stored) => r matches Ok(q) && q@ == stored,
            Err(e) => r matches Err(err) && err@ == e,
        },
        final(store)@ == update_question_spec(id@, old(store)@, question@).0,
{
    store.confirm_well_formed();
    let ghost text = id@;
    match QuestionId::new(id) {
        Some(id) => store.update(&id, question),
        None => {
            assert(!store@.holds(text));
            assert(text =~= Seq::<char>::empty());
            Err(missing(String::new()))
        },
    }
}

/// The body that confirms a deletion.
pub open spec fn deleted_message(id: Seq<char>) -> Seq<char> {
    "Question "@ + id + " deleted"@
}

/// What a delete request answers, and what it leaves in the store.
pub open spec fn delete_question_spec(id: Seq<char>, store: StoreView) -> (
    StoreView,
    Result<ResponseView, ErrorView>,
) {
    if store.holds(id) {
        (store.after_delete(id), Ok(ResponseView { status: OK, body: deleted_message(id) }))
    } else {
        (store, Err(write_error(Some(id), StoreFault::NotFound)))
    }
}

/// Deletes the question with the identifier `id`, and answers with a confirmation that names
/// it. Fails, and changes nothing, where the store has no such question.
pub fn delete_question(id: String, store: &mut Store) -> (r: Result<Response, Error>)
    ensures
        match delete_question_spec(id@, old(store)@).1 {
            Ok(response) => r matches Ok(sent) && sent@ == response,
            Err(e) => r matches Err(err) && err@ == e,
        },
        final(store)@ == delete_question_spec(id@, old(store)@).0,
{
    store.confirm_well_formed();
    let ghost text = id@;
    match QuestionId::new(id) {
        Some(id) => match store.delete(&id) {
            Ok(()) => {
                let mut body = String::from_str("Question ");
                body.append(id.as_str());
                body.append(" deleted");
                Ok(Response { status: OK, body })
            },
            Err(e) => Err(e),
        },
        None => {
            assert(!store@.holds(text));
            assert(text =~= Seq::<char>::empty());
            Err(missing(String::new()))
        },
    }
}

/// The failure of a write to a question that the store does not hold.
fn missing(id: String) -> (e: Error)
    ensures
        e@ == write_error(Some(id@), StoreFault::NotFound),
{
    Error::StoreWriteError {
        entity_kind: crate::error::EntityKind::Question,
        id: Some(id),
        cause: StoreFault::NotFound,
    }
}

/// A listing request whose `start` and `end` are numbers with `start <= end`, `end` within
/// the listing, is answered with exactly the `end - start` records from position `start`
/// up to, not including, position `end`.
pub proof fn lemma_window_within_listing(
    params: Map<Seq<char>, Seq<char>>,
    store: StoreView,
    start: usize,
    end: usize,
)
    requires
        params.contains_key("start"@),
        params.contains_key("end"@),
        parse_number_spec(params["start"@]) == Ok::<usize, ParseIntFailure>(start),
        parse_number_spec(params["end"@]) == Ok::<usize, ParseIntFailure>(end),
        start <= end <= store.questions.len(),
    ensures
        get_questions_spec(params, store) == Ok::<Seq<QuestionView>, ErrorView>(
            store.questions.subrange(start as int, end as int),
        ),
        store.questions.subrange(start as int, end as int).len() == end - start,
{
    lemma_two_numbers_give_the_window(params, start, end);
    lemma_list_within_bounds(store, start as nat, end as nat);
}

/// A listing request that names neither `start` nor `end` is answered with every record.
pub proof fn lemma_no_window_lists_everything(params: Map<Seq<char>, Seq<char>>, store: StoreView)
    requires
        !params.contains_key("start"@),
        !params.contains_key("end"@),
    ensures
        get_questions_spec(params, store) == Ok::<Seq<QuestionView>, ErrorView>(store.questions),
{
}

/// Whatever the window, a listing request that is accepted is answered with records of the
/// listing, in their order and without gaps: a window that reaches beyond the listing is
/// cut short, never refused.
pub proof fn lemma_window_is_clamped(store: StoreView, offset: nat, limit: nat)
    ensures
        store.list(offset, limit).len() <= limit,
        store.list(offset, limit).len() <= store.questions.len(),
        offset >= store.questions.len() ==> store.list(offset, limit).len() == 0,
        forall|i: int|
            0 <= i < store.list(offset, limit).len() ==> #[trigger] store.list(offset, limit)[i]
                == store.questions[offset + i],
{
}

/// After a question was deleted, an update of it and a second deletion of it both fail as
/// writes to a question that is not there, and leave the store as the deletion left it.
pub proof fn lemma_deleted_question_is_gone(store: StoreView, id: Seq<char>, question: QuestionView)
    requires
        store.well_formed(),
        store.holds(id),
    ensures
        update_question_spec(id, store.after_delete(id), question) == (
            store.after_delete(id),
            Err::<QuestionView, ErrorView>(write_error(Some(id), StoreFault::NotFound)),
        ),
        delete_question_spec(id, store.after_delete(id)) == (
            store.after_delete(id),
            Err::<ResponseView, ErrorView>(write_error(Some(id), StoreFault::NotFound)),
        ),
{
    lemma_delete_removes_identifier(store, id);
}

/// A failure of the moderation service, be it for the title or for the content, ends the
/// creation with that failure, and the store holds what it held: nothing is stored in part.
pub proof fn lemma_moderation_failure_stores_nothing(
    store: StoreView,
    screening: ScreeningView,
    reply: ServiceReplyView,
)
    requires
        check_profanity_spec(reply) is Err,
    ensures
        add_question_spec(store, screening, reply).0 == store,
        add_question_spec(store, screening, reply).1 matches ProgressView::Failed(
            ErrorView::ModerationServiceError { .. },
        ),
{
}

/// The content of a question is sent to the moderation service only after its title came
/// back screened, and the question is stored only after both did: with the screened texts,
/// the submitted tags, and an identifier that no record had.
pub proof fn lemma_screened_question_is_stored(
    store: StoreView,
    draft: NewQuestionView,
    title: Seq<char>,
    content: Seq<char>,
)
    requires
        store.well_formed(),
        store.can_create(),
    ensures
        ({
            let first = add_question_spec(
                store,
                ScreeningView::Title { draft },
                ServiceReplyView::Answer { status: 200, censored: Some(title) },
            );
            let second = add_question_spec(
                first.0,
                ScreeningView::Content { title, draft },
                ServiceReplyView::Answer { status: 200, censored: Some(content) },
            );
            let stored = QuestionView {
                id: decimal_digits(store.next_id),
                title,
                content,
                tags: draft.tags,
            };
            &&& first == (store, ProgressView::Pending(ScreeningView::Content { title, draft }))
            &&& second.1 == ProgressView::Created(stored)
            &&& second.0.questions == store.questions.push(stored)
            &&& !store.holds(stored.id)
        }),
{
    lemma_create_is_fresh(store, NewQuestionView { title, content, tags: draft.tags });
}

} // verus!
