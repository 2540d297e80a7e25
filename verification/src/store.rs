//! The store of questions: an ordered collection in which every record has its own
//! identifier, and which never gives an identifier out twice.

use crate::decimal::{decimal_digits, parse_number, parse_number_spec};
use crate::decimal::{lemma_decimal_digits_are_digits, lemma_decimal_digits_differ};
use crate::decimal::lemma_write_then_read;
use crate::error::{EntityKind, Error, ErrorView, StoreFault};
use crate::types::question::{question_views, NewQuestion, NewQuestionView, Question};
use crate::types::question::{QuestionId, QuestionView};
use vstd::prelude::*;

verus! {

/// The questions, in the order in which they came into the store.
pub struct Store {
    questions: Vec<Question>,
    next_id: usize,
    retired: Ghost<Set<Seq<char>>>,
}

/// What a store holds: its records in listing order, the number that the next new record
/// gets as its identifier, and the identifiers of the records that were deleted.
pub struct StoreView {
    pub questions: Seq<QuestionView>,
    pub next_id: nat,
    pub retired: Set<Seq<char>>,
}

impl StoreView {
    /// Whether a record has the identifier `id`.
    pub open spec fn holds(self, id: Seq<char>) -> bool {
        exists|i: int| 0 <= i < self.questions.len() && (#[trigger] self.questions[i]).id == id
    }

    /// The place in the listing of the record with the identifier `id`.
    pub open spec fn position(self, id: Seq<char>) -> int
        recommends
            self.holds(id),
    {
        choose|i: int| 0 <= i < self.questions.len() && (#[trigger] self.questions[i]).id == id
    }

    /// Whether the store has ever had a record with the identifier `id`, as far as it knows.
    pub open spec fn knows(self, id: Seq<char>) -> bool {
        self.holds(id) || self.retired.contains(id)
    }

    /// What holds of every store: no identifier is empty, no two records share one, none is
    /// that of a deleted record, and no number from `next_id` on writes a known identifier.
    pub open spec fn well_formed(self) -> bool {
        &&& forall|i: int|
            0 <= i < self.questions.len() ==> (#[trigger] self.questions[i]).id.len() > 0
        &&& forall|i: int, j: int|
            0 <= i < j < self.questions.len() ==> (#[trigger] self.questions[i]).id != (
            #[trigger] self.questions[j]).id
        &&& forall|i: int|
            0 <= i < self.questions.len() ==> !self.retired.contains(
                (#[trigger] self.questions[i]).id,
            )
        &&& forall|n: nat|
            self.next_id <= n < usize::MAX ==> !self.knows(#[trigger] decimal_digits(n))
        &&& self.next_id <= usize::MAX
    }

    /// The records that the window of `limit` records after the first `offset` shows: the
    /// window is cut to what the listing has.
    pub open spec fn list(self, offset: nat, limit: nat) -> Seq<QuestionView> {
        let len = self.questions.len();
        let from = if offset <= len {
            offset
        } else {
            len
        };
        let to = if offset + limit <= len {
            offset + limit
        } else {
            len
        };
        self.questions.subrange(from as int, to as int)
    }
}

impl StoreView {
    /// Whether the store can still name a new record.
    pub open spec fn can_create(self) -> bool {
        self.next_id < usize::MAX
    }

    /// The record that `draft` becomes when it is stored: it gets the identifier that
    /// writes `next_id`.
    pub open spec fn created(self, draft: NewQuestionView) -> QuestionView {
        draft.with_id(decimal_digits(self.next_id))
    }

    /// The store after `draft` was stored: the new record stands last.
    pub open spec fn after_create(self, draft: NewQuestionView) -> StoreView {
        StoreView {
            questions: self.questions.push(self.created(draft)),
            next_id: self.next_id + 1,
            retired: self.retired,
        }
    }

    /// The store after the record with the identifier `id` was replaced by `question`: the
    /// record keeps its place and its identifier.
    pub open spec fn after_update(self, id: Seq<char>, question: QuestionView) -> StoreView
        recommends
            self.holds(id),
    {
        StoreView {
            questions: self.questions.update(self.position(id), question.with_id(id)),
            next_id: self.next_id,
            retired: self.retired,
        }
    }

    /// The store after the record with the identifier `id` was deleted: the other records
    /// keep their order, and `id` is remembered as given up.
    pub open spec fn after_delete(self, id: Seq<char>) -> StoreView
        recommends
            self.holds(id),
    {
        StoreView {
            questions: self.questions.remove(self.position(id)),
            next_id: self.next_id,
            retired: self.retired.insert(id),
        }
    }
}

/// The least number that may follow the identifier `id`: one more than the number that `id`
/// reads as, where it reads as one.
pub open spec fn successor(id: Seq<char>) -> nat {
    match parse_number_spec(id) {
        Ok(n) => if n < usize::MAX {
            (n + 1) as nat
        } else {
            usize::MAX as nat
        },
        Err(_) => 0,
    }
}

/// The number that the first new record gets in a store that starts with `questions`: 1, or
/// one more than the greatest number that any of their identifiers reads as.
pub open spec fn first_free(questions: Seq<QuestionView>) -> nat
    decreases questions.len(),
{
    if questions.len() == 0 {
        1
    } else {
        let before = first_free(questions.drop_last());
        let after = successor(questions.last().id);
        if before >= after {
            before
        } else {
            after
        }
    }
}

/// Whether no two of `questions` share an identifier.
pub open spec fn distinct_ids(questions: Seq<QuestionView>) -> bool {
    forall|i: int, j: int|
        0 <= i < j < questions.len() ==> (#[trigger] questions[i]).id != (
        #[trigger] questions[j]).id
}

/// Whether the record at `j` is the first of `questions` whose identifier an earlier record
/// has.
pub open spec fn first_repeat(questions: Seq<QuestionView>, j: int) -> bool {
    &&& 0 <= j < questions.len()
    &&& distinct_ids(questions.take(j))
    &&& exists|i: int| 0 <= i < j && (#[trigger] questions[i]).id == questions[j].id
}

/// The failure of writing the question with the identifier `id`, where one is known.
pub open spec fn write_error(id: Option<Seq<char>>, cause: StoreFault) -> ErrorView {
    ErrorView::StoreWriteError { entity_kind: EntityKind::Question, id, cause }
}

/// Storing a new record keeps the store well formed, and the record's identifier is one
/// that the store has never had: not that of a record it holds, nor of one it deleted.
pub proof fn lemma_create_is_fresh(store: StoreView, draft: NewQuestionView)
    requires
        store.well_formed(),
        store.can_create(),
    ensures
        store.after_create(draft).well_formed(),
        store.created(draft).id.len() > 0,
        !store.knows(store.created(draft).id),
{
    let after = store.after_create(draft);
    let id = decimal_digits(store.next_id);
    lemma_decimal_digits_are_digits(store.next_id);
    assert(!store.knows(id));
    assert forall|i: int| 0 <= i < store.questions.len() implies (
    #[trigger] after.questions[i]).id != id by {
        assert(store.questions[i].id == after.questions[i].id);
    }
    assert forall|n: nat| after.next_id <= n < usize::MAX implies !after.knows(
        #[trigger] decimal_digits(n),
    ) by {
        lemma_decimal_digits_differ(n, store.next_id);
        assert(!store.knows(decimal_digits(n)));
        if after.holds(decimal_digits(n)) {
            let i = choose|i: int|
                0 <= i < after.questions.len() && (#[trigger] after.questions[i]).id
                    == decimal_digits(n);
            if i < store.questions.len() {
                assert(store.questions[i].id == decimal_digits(n));
            }
        }
    }
}

/// Replacing a record keeps the store well formed, and the store holds the identifiers that
/// it held before, no more and no fewer.
pub proof fn lemma_update_keeps_identifiers(store: StoreView, id: Seq<char>, question: QuestionView)
    requires
        store.well_formed(),
        store.holds(id),
    ensures
        store.after_update(id, question).well_formed(),
        forall|other: Seq<char>| store.after_update(id, question).holds(other) <==> store.holds(other),
{
    let after = store.after_update(id, question);
    assert forall|i: int| 0 <= i < after.questions.len() implies (
    #[trigger] after.questions[i]).id == store.questions[i].id by {}
    assert forall|other: Seq<char>| after.holds(other) <==> store.holds(other) by {
        if after.holds(other) {
            let i = choose|i: int|
                0 <= i < after.questions.len() && (#[trigger] after.questions[i]).id == other;
            assert(store.questions[i].id == other);
        }
        if store.holds(other) {
            let i = choose|i: int|
                0 <= i < store.questions.len() && (#[trigger] store.questions[i]).id == other;
            assert(after.questions[i].id == other);
        }
    }
}

/// Deleting a record keeps the store well formed. The store then no longer holds the
/// record's identifier but remembers it, and it holds every other identifier that it held.
pub proof fn lemma_delete_removes_identifier(store: StoreView, id: Seq<char>)
    requires
        store.well_formed(),
        store.holds(id),
    ensures
        store.after_delete(id).well_formed(),
        !store.after_delete(id).holds(id),
        store.after_delete(id).knows(id),
        forall|other: Seq<char>|
            other != id ==> (store.after_delete(id).holds(other) <==> store.holds(other)),
{
    let after = store.after_delete(id);
    let place = store.position(id);
    assert forall|i: int| 0 <= i < after.questions.len() implies (#[trigger] after.questions[i])
        == store.questions[if i < place {
        i
    } else {
        i + 1
    }] by {}
    assert forall|other: Seq<char>| after.holds(other) implies store.holds(other) && other
        != id by {
        let i = choose|i: int|
            0 <= i < after.questions.len() && (#[trigger] after.questions[i]).id == other;
        assert(store.questions[if i < place {
            i
        } else {
            i + 1
        }].id == other);
    }
    assert forall|other: Seq<char>| other != id && store.holds(other) implies after.holds(
        other,
    ) by {
        let i = choose|i: int|
            0 <= i < store.questions.len() && (#[trigger] store.questions[i]).id == other;
        assert(after.questions[if i < place {
            i
        } else {
            i - 1
        }].id == other);
    }
}

/// An identifier that the store knows, be it of a record that it holds or of one that it
/// deleted, is never given to a new record.
pub proof fn lemma_identifier_never_reused(store: StoreView, id: Seq<char>, draft: NewQuestionView)
    requires
        store.well_formed(),
        store.can_create(),
        store.knows(id),
    ensures
        store.created(draft).id != id,
{
    lemma_create_is_fresh(store, draft);
}

/// What the store knows it never forgets: an identifier that it holds or has deleted is
/// still known after any record was created, replaced or deleted. With the law above, no
/// identifier is ever given out twice, whatever happens in between.
pub proof fn lemma_known_stays_known(
    store: StoreView,
    id: Seq<char>,
    draft: NewQuestionView,
    target: Seq<char>,
    question: QuestionView,
)
    requires
        store.well_formed(),
        store.knows(id),
    ensures
        store.after_create(draft).knows(id),
        store.holds(target) ==> store.after_update(target, question).knows(id),
        store.holds(target) ==> store.after_delete(target).knows(id),
{
    if store.holds(id) {
        let i = choose|i: int|
            0 <= i < store.questions.len() && (#[trigger] store.questions[i]).id == id;
        assert(store.after_create(draft).questions[i].id == id);
    }
    if store.holds(target) {
        lemma_update_keeps_identifiers(store, target, question);
        lemma_delete_removes_identifier(store, target);
    }
}

/// Creating a record and then listing everything shows the records that were there, in
/// their order, and then the new record, which is the only one with its identifier.
pub proof fn lemma_create_then_list(store: StoreView, draft: NewQuestionView)
    requires
        store.well_formed(),
        store.can_create(),
    ensures
        ({
            let after = store.after_create(draft);
            let new = store.created(draft);
            &&& after.list(0, after.questions.len()) == store.questions.push(new)
            &&& !store.holds(new.id)
            &&& forall|i: int|
                0 <= i < after.questions.len() && (#[trigger] after.questions[i]).id == new.id
                    ==> i == after.questions.len() - 1
        }),
{
    lemma_create_is_fresh(store, draft);
    let after = store.after_create(draft);
    assert(after.list(0, after.questions.len()) =~= store.questions.push(store.created(draft)));
}

/// A window that lies within the listing shows exactly the records at its positions.
pub proof fn lemma_list_within_bounds(store: StoreView, start: nat, end: nat)
    requires
        start <= end <= store.questions.len(),
    ensures
        store.list(start, (end - start) as nat) == store.questions.subrange(
            start as int,
            end as int,
        ),
        store.list(start, (end - start) as nat).len() == end - start,
{
}

impl View for Store {
    type V = StoreView;

    closed spec fn view(&self) -> StoreView {
        StoreView {
            questions: question_views(self.questions@),
            next_id: self.next_id as nat,
            retired: self.retired@,
        }
    }
}

impl Store {
    #[verifier::type_invariant]
    closed spec fn inv(self) -> bool {
        self@.well_formed()
    }

    /// An empty store. Its first new record gets the identifier `1`.
    pub fn new() -> (store: Store)
        ensures
            store@ == (StoreView {
                questions: Seq::empty(),
                next_id: 1,
                retired: Set::empty(),
            }),
            store@.well_formed(),
    {
        let store = Store { questions: Vec::new(), next_id: 1, retired: Ghost(Set::empty()) };
        assert(store@.questions =~= Seq::empty());
        store
    }

    /// A store that starts with `records`, in their order. Fails when two of them share an
    /// identifier, and then names the first record that repeats one.
    pub fn init(records: Vec<Question>) -> (r: Result<Store, Error>)
        ensures
            match r {
                Ok(store) => {
                    &&& distinct_ids(question_views(records@))
                    &&& store@ == (StoreView {
                        questions: question_views(records@),
                        next_id: first_free(question_views(records@)),
                        retired: Set::empty(),
                    })
                    &&& store@.well_formed()
                },
                Err(e) => exists|j: int|
                    first_repeat(question_views(records@), j) && e@ == write_error(
                        Some(#[trigger] question_views(records@)[j].id),
                        StoreFault::Conflict,
                    ),
            },
    {
        let ghost views = question_views(records@);
        let mut next_id: usize = 1;
        let mut j: usize = 0;
        assert(views.take(0) =~= Seq::empty());
        while j < records.len()
            invariant
                j <= records.len(),
                views == question_views(records@),
                distinct_ids(views.take(j as int)),
                next_id == first_free(views.take(j as int)),
                forall|i: int| 0 <= i < j ==> (#[trigger] views[i]).id.len() > 0,
                forall|n: nat, i: int|
                    next_id <= n < usize::MAX && 0 <= i < j ==> (#[trigger] views[i]).id
                        != #[trigger] decimal_digits(n),
            decreases records.len() - j,
        {
            let id = &records[j].id;
            assert(id@ == views[j as int].id);
            let mut i: usize = 0;
            while i < j
                invariant
                    i <= j < records.len(),
                    views == question_views(records@),
                    id@ == views[j as int].id,
                    distinct_ids(views.take(j as int)),
                    forall|k: int| 0 <= k < i ==> (#[trigger] views[k]).id != id@,
                decreases j - i,
            {
                if records[i].id.same_as(id) {
                    assert(views[i as int].id == views[j as int].id);
                    assert(first_repeat(views, j as int));
                    return Err(
                        Error::StoreWriteError {
                            entity_kind: EntityKind::Question,
                            id: Some(String::from_str(id.as_str())),
                            cause: StoreFault::Conflict,
                        },
                    );
                }
                i = i + 1;
            }
            let ghost earlier = next_id;
            match parse_number(id.as_str()) {
                Ok(n) => {
                    let after = if n < usize::MAX {
                        n + 1
                    } else {
                        usize::MAX
                    };
                    if after > next_id {
                        next_id = after;
                    }
                },
                Err(_) => {},
            }
            proof {
                let longer = views.take(j + 1);
                assert(longer.drop_last() =~= views.take(j as int));
                assert(longer.last() == views[j as int]);
                assert forall|a: int, b: int| 0 <= a < b < longer.len() implies (
                #[trigger] longer[a]).id != (#[trigger] longer[b]).id by {
                    if b < j {
                        assert(views.take(j as int)[a].id != views.take(j as int)[b].id);
                    } else {
                        assert(views[a].id != id@);
                    }
                }
                assert forall|n: nat, i: int|
                    next_id <= n < usize::MAX && 0 <= i < j + 1 implies (#[trigger] views[i]).id
                    != #[trigger] decimal_digits(n) by {
                    if i == j {
                        if id@ == decimal_digits(n) {
                            lemma_write_then_read(n);
                        }
                    }
                }
            }
            j = j + 1;
        }
        assert(views.take(j as int) =~= views);
        let store = Store { questions: records, next_id, retired: Ghost(Set::empty()) };
        proof {
            assert forall|n: nat| store@.next_id <= n < usize::MAX implies !store@.knows(
                #[trigger] decimal_digits(n),
            ) by {
                if store@.holds(decimal_digits(n)) {
                    let i = choose|i: int|
                        0 <= i < views.len() && (#[trigger] views[i]).id == decimal_digits(n);
                    assert(views[i].id != decimal_digits(n));
                }
            }
        }
        Ok(store)
    }

    /// Every store is well formed. This does nothing when the program runs: it lets a caller
    /// use the fact in a proof.
    pub fn confirm_well_formed(&self)
        ensures
            self@.well_formed(),
    {
        proof {
            use_type_invariant(self);
        }
    }

    /// The number of records.
    pub fn len(&self) -> (n: usize)
        ensures
            n == self@.questions.len(),
    {
        self.questions.len()
    }

    /// The place of the record with the identifier `id`, if there is one.
    fn find(&self, id: &QuestionId) -> (place: Option<usize>)
        ensures
            self@.well_formed(),
            match place {
                Some(i) => self@.holds(id@) && i == self@.position(id@) && i
                    < self.questions.len(),
                None => !self@.holds(id@),
            },
    {
        proof {
            use_type_invariant(self);
        }
        let mut i: usize = 0;
        while i < self.questions.len()
            invariant
                i <= self.questions.len(),
                self@.well_formed(),
                forall|j: int| 0 <= j < i ==> (#[trigger] self@.questions[j]).id != id@,
            decreases self.questions.len() - i,
        {
            if self.questions[i].id.same_as(id) {
                assert(self@.questions[i as int].id == id@);
                return Some(i);
            }
            i = i + 1;
        }
        None
    }

    /// The records in the window of `limit` records after the first `offset`, in listing
    /// order. A window that reaches beyond the listing is cut short, one that starts beyond
    /// it is empty: listing never fails.
    pub fn list(&self, offset: usize, limit: usize) -> (page: Vec<Question>)
        ensures
            question_views(page@) == self@.list(offset as nat, limit as nat),
    {
        let len = self.questions.len();
        let from = if offset <= len {
            offset
        } else {
            len
        };
        let to = if limit <= len - from {
            from + limit
        } else {
            len
        };
        let mut page: Vec<Question> = Vec::new();
        let mut i: usize = from;
        while i < to
            invariant
                from <= i <= to <= len,
                len == self.questions.len(),
                page.len() == i - from,
                forall|j: int| 0 <= j < i - from ==> (#[trigger] page[j])@ == self.questions[from + j]@,
            decreases to - i,
        {
            page.push(self.questions[i].clone());
            i = i + 1;
        }
        assert(question_views(page@) =~= self@.list(offset as nat, limit as nat));
        page
    }

    /// Stores `draft` as a new record under an identifier that the store has never given
    /// out, and returns the record as it is stored. Fails, and changes nothing, only when
    /// the store has run out of identifiers.
    pub fn create(&mut self, draft: NewQuestion) -> (r: Result<Question, Error>)
        ensures
            if old(self)@.can_create() {
                &&& r matches Ok(q)
                &&& q@ == old(self)@.created(draft@)
                &&& final(self)@ == old(self)@.after_create(draft@)
            } else {
                &&& r matches Err(e)
                &&& e@ == write_error(None, StoreFault::Unavailable)
                &&& final(self)@ == old(self)@
            },
            old(self)@.can_create() ==> !old(self)@.knows(old(self)@.created(draft@).id),
            final(self)@.well_formed(),
    {
        proof {
            use_type_invariant(&*self);
        }
        if self.next_id == usize::MAX {
            return Err(
                Error::StoreWriteError {
                    entity_kind: EntityKind::Question,
                    id: None,
                    cause: StoreFault::Unavailable,
                },
            );
        }
        let ghost before = self@;
        let id = QuestionId::from_number(self.next_id);
        let question = Question {
            id,
            title: draft.title,
            content: draft.content,
            tags: draft.tags,
        };
        let stored = question.clone();
        let mut questions: Vec<Question> = Vec::new();
        std::mem::swap(&mut questions, &mut self.questions);
        questions.push(question);
        proof {
            lemma_create_is_fresh(before, draft@);
            assert(question_views(questions@) =~= before.after_create(draft@).questions);
        }
        *self = Store { questions, next_id: self.next_id + 1, retired: Ghost(before.retired) };
        Ok(stored)
    }

    /// Replaces the record with the identifier `id` by `question`, which is stored under
    /// `id` and in the same place, and returns it as it is stored. Fails, and changes
    /// nothing, when no record has that identifier.
    pub fn update(&mut self, id: &QuestionId, question: Question) -> (r: Result<Question, Error>)
        ensures
            if old(self)@.holds(id@) {
                &&& r matches Ok(q)
                &&& q@ == question@.with_id(id@)
                &&& final(self)@ == old(self)@.after_update(id@, question@)
            } else {
                &&& r matches Err(e)
                &&& e@ == write_error(Some(id@), StoreFault::NotFound)
                &&& final(self)@ == old(self)@
            },
            final(self)@.well_formed(),
    {
        let ghost before = self@;
        let place = match self.find(id) {
            Some(place) => place,
            None => {
                return Err(not_found(id));
            },
        };
        let record = Question {
            id: id.clone(),
            title: question.title,
            content: question.content,
            tags: question.tags,
        };
        let stored = record.clone();
        let mut questions: Vec<Question> = Vec::new();
        std::mem::swap(&mut questions, &mut self.questions);
        questions.set(place, record);
        proof {
            lemma_update_keeps_identifiers(before, id@, question@);
            assert(question_views(questions@) =~= before.after_update(id@, question@).questions);
        }
        *self = Store { questions, next_id: self.next_id, retired: Ghost(before.retired) };
        Ok(stored)
    }

    /// Deletes the record with the identifier `id`. Fails, and changes nothing, when no
    /// record has that identifier.
    pub fn delete(&mut self, id: &QuestionId) -> (r: Result<(), Error>)
        ensures
            if old(self)@.holds(id@) {
                &&& r is Ok
                &&& final(self)@ == old(self)@.after_delete(id@)
            } else {
                &&& r matches Err(e)
                &&& e@ == write_error(Some(id@), StoreFault::NotFound)
                &&& final(self)@ == old(self)@
            },
            final(self)@.well_formed(),
    {
        let ghost before = self@;
        let place = match self.find(id) {
            Some(place) => place,
            None => {
                return Err(not_found(id));
            },
        };
        let mut questions: Vec<Question> = Vec::new();
        std::mem::swap(&mut questions, &mut self.questions);
        questions.remove(place);
        proof {
            lemma_delete_removes_identifier(before, id@);
            assert(question_views(questions@) =~= before.after_delete(id@).questions);
        }
        *self = Store {
            questions,
            next_id: self.next_id,
            retired: Ghost(before.retired.insert(id@)),
        };
        Ok(())
    }
}

/// The failure of a write to a question that the store does not hold.
fn not_found(id: &QuestionId) -> (e: Error)
    ensures
        e@ == write_error(Some(id@), StoreFault::NotFound),
{
    Error::StoreWriteError {
        entity_kind: EntityKind::Question,
        id: Some(String::from_str(id.as_str())),
        cause: StoreFault::NotFound,
    }
}

} // verus!
