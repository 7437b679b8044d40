//! The in-process store of questions and answers.
//!
//! Questions are listed in the order they were added; an update keeps a
//! question's place and a deletion keeps the order of the others. The store
//! assigns identifiers from a serial counter per table, so no identifier is
//! ever handed out twice.

use crate::error::{status_of, Error, Rejection, UNPROCESSABLE_ENTITY};
use crate::types::{
    Answer, AnswerId, AnswerView, NewAnswer, NewAnswerView, NewQuestion, NewQuestionView, Question,
    QuestionId, QuestionView,
};
use vstd::prelude::*;

verus! {

/// The questions of a list of records, as views.
pub open spec fn question_views(qs: Seq<Question>) -> Seq<QuestionView> {
    qs.map_values(|q: Question| q@)
}

/// The part of a listing that starts `offset` items in and holds at most
/// `limit` items (all the rest when there is no limit).
pub open spec fn window(qs: Seq<QuestionView>, limit: Option<usize>, offset: usize) -> Seq<
    QuestionView,
> {
    let lo = if offset <= qs.len() {
        offset as int
    } else {
        qs.len() as int
    };
    let hi = match limit {
        None => qs.len() as int,
        Some(l) => if offset + l <= qs.len() {
            offset + l
        } else {
            qs.len() as int
        },
    };
    qs.subrange(lo, hi)
}

/// The view of an operation's result.
pub open spec fn outcome_view(r: Result<Question, Error>) -> Result<QuestionView, Error> {
    match r {
        Ok(q) => Ok(q@),
        Err(e) => Err(e),
    }
}

/// The view of an answer operation's result.
pub open spec fn answer_outcome_view(r: Result<Answer, Error>) -> Result<AnswerView, Error> {
    match r {
        Ok(a) => Ok(a@),
        Err(e) => Err(e),
    }
}

/// What the store holds: the questions in listing order, the answers in the
/// order they were added, and the identifier each table hands out next.
pub struct StoreView {
    pub questions: Seq<QuestionView>,
    pub answers: Seq<AnswerView>,
    pub next_question_id: i32,
    pub next_answer_id: i32,
}

impl StoreView {
    /// Identifiers are positive, unique within their table, and below the
    /// identifier the table hands out next.
    pub open spec fn wf(self) -> bool {
        &&& 1 <= self.next_question_id
        &&& 1 <= self.next_answer_id
        &&& forall|i: int|
            0 <= i < self.questions.len() ==> 1 <= #[trigger] self.questions[i].id
                < self.next_question_id
        &&& forall|i: int, j: int|
            0 <= i < self.questions.len() && 0 <= j < self.questions.len() && i != j
                ==> #[trigger] self.questions[i].id != #[trigger] self.questions[j].id
        &&& forall|i: int|
            0 <= i < self.answers.len() ==> 1 <= #[trigger] self.answers[i].id
                < self.next_answer_id
        &&& forall|i: int, j: int|
            0 <= i < self.answers.len() && 0 <= j < self.answers.len() && i != j
                ==> #[trigger] self.answers[i].id != #[trigger] self.answers[j].id
    }

    /// Whether a question with identifier `id` is stored.
    pub open spec fn has_question(self, id: i32) -> bool {
        exists|i: int| 0 <= i < self.questions.len() && #[trigger] self.questions[i].id == id
    }

    /// Where the question with identifier `id` stands in the listing.
    pub open spec fn question_index(self, id: i32) -> int {
        choose|i: int| 0 <= i < self.questions.len() && #[trigger] self.questions[i].id == id
    }

    /// Adding a question: it gets the next identifier and goes to the end of
    /// the listing; when the identifiers are used up, nothing changes and the
    /// store fails.
    pub open spec fn add_question(self, q: NewQuestionView) -> (StoreView, Result<
        QuestionView,
        Error,
    >) {
        if self.next_question_id == i32::MAX {
            (self, Err(Error::DatabaseQueryError))
        } else {
            let added = QuestionView {
                id: self.next_question_id,
                title: q.title,
                content: q.content,
                tags: q.tags,
            };
            (
                StoreView {
                    questions: self.questions.push(added),
                    next_question_id: (self.next_question_id + 1) as i32,
                    ..self
                },
                Ok(added),
            )
        }
    }

    /// Updating the question with identifier `id`: its title, content and
    /// tags are replaced by those of `q` and its identifier stays `id`; with
    /// no such question, nothing changes and it is not found.
    pub open spec fn update_question(self, q: QuestionView, id: i32) -> (StoreView, Result<
        QuestionView,
        Error,
    >) {
        if self.has_question(id) {
            let updated = QuestionView { id, ..q };
            (
                StoreView {
                    questions: self.questions.update(self.question_index(id), updated),
                    ..self
                },
                Ok(updated),
            )
        } else {
            (self, Err(Error::QuestionNotFound))
        }
    }

    /// Deleting the question with identifier `id`; with no such question,
    /// nothing changes and it is not found.
    pub open spec fn delete_question(self, id: i32) -> (StoreView, Result<bool, Error>) {
        if self.has_question(id) {
            (
                StoreView {
                    questions: self.questions.remove(self.question_index(id)),
                    ..self
                },
                Ok(true),
            )
        } else {
            (self, Err(Error::QuestionNotFound))
        }
    }

    /// Adding an answer: it gets the next answer identifier; when those are
    /// used up, nothing changes and the store fails. The question it refers
    /// to need not exist.
    pub open spec fn add_answer(self, a: NewAnswerView) -> (StoreView, Result<AnswerView, Error>) {
        if self.next_answer_id == i32::MAX {
            (self, Err(Error::DatabaseQueryError))
        } else {
            let added = AnswerView {
                id: self.next_answer_id,
                content: a.content,
                question_id: a.question_id,
            };
            (
                StoreView {
                    answers: self.answers.push(added),
                    next_answer_id: (self.next_answer_id + 1) as i32,
                    ..self
                },
                Ok(added),
            )
        }
    }
}

/// The store after adding each of `qs` in turn.
pub open spec fn add_questions(s: StoreView, qs: Seq<NewQuestionView>) -> StoreView
    decreases qs.len(),
{
    if qs.len() == 0 {
        s
    } else {
        add_questions(s, qs.drop_last()).add_question(qs.last()).0
    }
}

/// Adding a question keeps the store consistent.
pub proof fn lemma_add_question_keeps_wf(s: StoreView, q: NewQuestionView)
    requires
        s.wf(),
    ensures
        s.add_question(q).0.wf(),
{
    let t = s.add_question(q).0;
    if s.next_question_id != i32::MAX {
        assert forall|i: int| 0 <= i < t.questions.len() implies 1 <= #[trigger] t.questions[i].id
            < t.next_question_id by {
            if i < s.questions.len() {
                assert(t.questions[i] == s.questions[i]);
            }
        }
        assert forall|i: int, j: int|
            0 <= i < t.questions.len() && 0 <= j < t.questions.len() && i != j
                implies #[trigger] t.questions[i].id != #[trigger] t.questions[j].id by {
            if i < s.questions.len() {
                assert(t.questions[i] == s.questions[i]);
            }
            if j < s.questions.len() {
                assert(t.questions[j] == s.questions[j]);
            }
        }
    }
}

/// Deleting a question keeps the store consistent.
pub proof fn lemma_delete_question_keeps_wf(s: StoreView, id: i32)
    requires
        s.wf(),
    ensures
        s.delete_question(id).0.wf(),
{
    if s.has_question(id) {
        let k = s.question_index(id);
        let t = s.delete_question(id).0;
        assert forall|i: int| 0 <= i < t.questions.len() implies 1 <= #[trigger] t.questions[i].id
            < t.next_question_id by {
            if i < k {
                assert(t.questions[i] == s.questions[i]);
            } else {
                assert(t.questions[i] == s.questions[i + 1]);
            }
        }
        assert forall|i: int, j: int|
            0 <= i < t.questions.len() && 0 <= j < t.questions.len() && i != j
                implies #[trigger] t.questions[i].id != #[trigger] t.questions[j].id by {
            let si = if i < k { i } else { i + 1 };
            let sj = if j < k { j } else { j + 1 };
            assert(t.questions[i] == s.questions[si]);
            assert(t.questions[j] == s.questions[sj]);
        }
    }
}

/// Updating a question that is not stored changes nothing and fails as not
/// found, and that failure is answered as unprocessable.
pub proof fn lemma_update_of_missing_question(s: StoreView, q: QuestionView, id: i32)
    requires
        s.wf(),
        !s.has_question(id),
    ensures
        s.update_question(q, id).0 == s,
        s.update_question(q, id).1 == Err::<QuestionView, Error>(Error::QuestionNotFound),
        s.update_question(q, id).1 matches Err(e) && status_of(Rejection::Custom(e))
            == UNPROCESSABLE_ENTITY,
{
}

/// Deleting a stored question succeeds and leaves no question with its
/// identifier, so deleting it a second time fails, and that failure is
/// answered as unprocessable.
pub proof fn lemma_delete_twice(s: StoreView, id: i32)
    requires
        s.wf(),
        s.has_question(id),
    ensures
        s.delete_question(id).1 == Ok::<bool, Error>(true),
        s.delete_question(id).0.wf(),
        !s.delete_question(id).0.has_question(id),
        s.delete_question(id).0.delete_question(id).1 == Err::<bool, Error>(Error::QuestionNotFound),
        s.delete_question(id).0.delete_question(id).1 matches Err(e) && status_of(
            Rejection::Custom(e),
        ) == UNPROCESSABLE_ENTITY,
{
    lemma_delete_question_keeps_wf(s, id);
    let k = s.question_index(id);
    let t = s.delete_question(id).0;
    assert forall|i: int| 0 <= i < t.questions.len() implies #[trigger] t.questions[i].id != id by {
        let si = if i < k { i } else { i + 1 };
        assert(t.questions[i] == s.questions[si]);
        assert(s.questions[k].id == id);
    }
}

/// Questions added one after another (the order in which the store's lock
/// lets concurrent additions through) are all stored afterwards, after the
/// questions stored before, which are all kept; each has the title, content
/// and tags it was submitted with and a fresh identifier, and no two
/// identifiers are equal.
pub proof fn lemma_added_questions_all_kept(s: StoreView, qs: Seq<NewQuestionView>)
    requires
        s.wf(),
        s.next_question_id + qs.len() <= i32::MAX,
    ensures
        add_questions(s, qs).wf(),
        add_questions(s, qs).questions.len() == s.questions.len() + qs.len(),
        add_questions(s, qs).questions.subrange(0, s.questions.len() as int) == s.questions,
        add_questions(s, qs).next_question_id == s.next_question_id + qs.len(),
        forall|k: int|
            0 <= k < qs.len() ==> #[trigger] add_questions(s, qs).questions[s.questions.len() + k]
                == (QuestionView {
                id: (s.next_question_id + k) as i32,
                title: qs[k].title,
                content: qs[k].content,
                tags: qs[k].tags,
            }),
        forall|i: int, j: int|
            0 <= i < add_questions(s, qs).questions.len() && 0 <= j < add_questions(
                s,
                qs,
            ).questions.len() && i != j ==> #[trigger] add_questions(s, qs).questions[i].id
                != #[trigger] add_questions(s, qs).questions[j].id,
    decreases qs.len(),
{
    if qs.len() > 0 {
        let rest = qs.drop_last();
        lemma_added_questions_all_kept(s, rest);
        let before = add_questions(s, rest);
        lemma_add_question_keeps_wf(before, qs.last());
        let after = add_questions(s, qs);
        assert(after == before.add_question(qs.last()).0);
        assert(after.questions == before.questions.push(
            QuestionView {
                id: before.next_question_id,
                title: qs.last().title,
                content: qs.last().content,
                tags: qs.last().tags,
            },
        ));
        assert(after.questions.subrange(0, s.questions.len() as int) =~= s.questions) by {
            assert forall|i: int| 0 <= i < s.questions.len() implies after.questions[i]
                == s.questions[i] by {
                assert(after.questions[i] == before.questions[i]);
                assert(before.questions.subrange(0, s.questions.len() as int)[i] == before.questions[i]);
            }
        }
        assert forall|k: int| 0 <= k < qs.len() implies #[trigger] after.questions[s.questions.len() + k]
            == (QuestionView {
            id: (s.next_question_id + k) as i32,
            title: qs[k].title,
            content: qs[k].content,
            tags: qs[k].tags,
        }) by {
            if k < rest.len() {
                assert(after.questions[s.questions.len() + k] == before.questions[s.questions.len() + k]);
                assert(rest[k] == qs[k]);
            }
        }
    }
}

/// The store of questions and answers.
#[derive(Debug)]
pub struct Store {
    questions: Vec<Question>,
    answers: Vec<Answer>,
    next_question_id: i32,
    next_answer_id: i32,
}

impl View for Store {
    type V = StoreView;

    closed spec fn view(&self) -> StoreView {
        StoreView {
            questions: question_views(self.questions@),
            answers: self.answers@.map_values(|a: Answer| a@),
            next_question_id: self.next_question_id,
            next_answer_id: self.next_answer_id,
        }
    }
}

impl Store {
    /// Whether the store's contents are consistent.
    pub open spec fn wf(&self) -> bool {
        self@.wf()
    }

    /// An empty store, whose tables both hand out identifier 1 first.
    pub fn new() -> (r: Store)
        ensures
            r.wf(),
            r@.questions.len() == 0,
            r@.answers.len() == 0,
            r@.next_question_id == 1,
            r@.next_answer_id == 1,
    {
        Store { questions: Vec::new(), answers: Vec::new(), next_question_id: 1, next_answer_id: 1 }
    }

    /// The number of questions stored.
    pub fn len(&self) -> (r: usize)
        ensures
            r == self@.questions.len(),
    {
        self.questions.len()
    }

    /// Where the question with identifier `id` stands, if it is stored.
    fn position(&self, id: i32) -> (r: Option<usize>)
        requires
            self.wf(),
        ensures
            match r {
                Some(i) => self@.has_question(id) && i == self@.question_index(id) && i
                    < self.questions@.len(),
                None => !self@.has_question(id),
            },
    {
        let mut i: usize = 0;
        while i < self.questions.len()
            invariant
                self.wf(),
                i <= self.questions@.len(),
                forall|j: int| 0 <= j < i ==> #[trigger] self@.questions[j].id != id,
            decreases self.questions@.len() - i,
        {
            if self.questions[i].id.0 == id {
                assert(self@.questions[i as int].id == id);
                let ghost k = self@.question_index(id);
                assert(self@.questions[k].id == id);
                return Some(i);
            }
            i = i + 1;
        }
        None
    }

    /// The questions of the listing window that starts `offset` items in and
    /// holds at most `limit` items. Reading the store in process always
    /// succeeds.
    pub fn get_questions(&self, limit: Option<usize>, offset: usize) -> (r: Result<
        Vec<Question>,
        Error,
    >)
        ensures
            r matches Ok(qs) && question_views(qs@) == window(self@.questions, limit, offset),
    {
        let n = self.questions.len();
        let lo = if offset <= n {
            offset
        } else {
            n
        };
        let hi = match limit {
            None => n,
            Some(l) => if l <= n - lo {
                lo + l
            } else {
                n
            },
        };
        let mut out: Vec<Question> = Vec::new();
        let mut i: usize = lo;
        while i < hi
            invariant
                lo <= i <= hi <= n == self.questions@.len(),
                question_views(out@) == question_views(self.questions@).subrange(lo as int, i as int),
            decreases hi - i,
        {
            let ghost before = out@;
            let q = self.questions[i].duplicate();
            out.push(q);
            assert(question_views(out@) =~= question_views(before).push(q@));
            i = i + 1;
            assert(question_views(out@) =~= question_views(self.questions@).subrange(
                lo as int,
                i as int,
            ));
        }
        Ok(out)
    }

    /// Adds a question under the next identifier and returns it as stored.
    pub fn add_question(&mut self, new_question: NewQuestion) -> (r: Result<Question, Error>)
        requires
            old(self).wf(),
        ensures
            final(self).wf(),
            (final(self)@, outcome_view(r)) == old(self)@.add_question(new_question@),
    {
        if self.next_question_id == i32::MAX {
            return Err(Error::DatabaseQueryError);
        }
        let question = Question {
            id: QuestionId(self.next_question_id),
            title: new_question.title,
            content: new_question.content,
            tags: new_question.tags,
        };
        let stored = question.duplicate();
        self.questions.push(stored);
        self.next_question_id = self.next_question_id + 1;
        assert(self@.questions == old(self)@.questions.push(question@));
        assert forall|i: int, j: int|
            0 <= i < self@.questions.len() && 0 <= j < self@.questions.len() && i != j
                implies #[trigger] self@.questions[i].id != #[trigger] self@.questions[j].id by {
            if i < old(self)@.questions.len() {
                assert(self@.questions[i] == old(self)@.questions[i]);
            }
            if j < old(self)@.questions.len() {
                assert(self@.questions[j] == old(self)@.questions[j]);
            }
        }
        assert forall|i: int| 0 <= i < self@.questions.len() implies 1 <= #[trigger] self@.questions[i].id
            < self@.next_question_id by {
            if i < old(self)@.questions.len() {
                assert(self@.questions[i] == old(self)@.questions[i]);
            }
        }
        assert(self@.answers == old(self)@.answers);
        Ok(question)
    }

    /// Replaces the title, content and tags of the question with identifier
    /// `question_id` by those of `question`, and returns it as stored.
    pub fn update_question(&mut self, question: Question, question_id: i32) -> (r: Result<
        Question,
        Error,
    >)
        requires
            old(self).wf(),
        ensures
            final(self).wf(),
            (final(self)@, outcome_view(r)) == old(self)@.update_question(question@, question_id),
    {
        match self.position(question_id) {
            None => Err(Error::QuestionNotFound),
            Some(i) => {
                let updated = Question {
                    id: QuestionId(question_id),
                    title: question.title,
                    content: question.content,
                    tags: question.tags,
                };
                self.questions.set(i, updated.duplicate());
                assert(self@.questions == old(self)@.questions.update(i as int, updated@));
                Ok(updated)
            },
        }
    }

    /// Deletes the question with identifier `question_id`.
    pub fn delete_question(&mut self, question_id: i32) -> (r: Result<bool, Error>)
        requires
            old(self).wf(),
        ensures
            final(self).wf(),
            (final(self)@, r) == old(self)@.delete_question(question_id),
    {
        match self.position(question_id) {
            None => Err(Error::QuestionNotFound),
            Some(i) => {
                self.questions.remove(i);
                assert(self@.questions == old(self)@.questions.remove(i as int));
                Ok(true)
            },
        }
    }

    /// Adds an answer under the next answer identifier and returns it as
    /// stored.
    pub fn add_answer(&mut self, new_answer: NewAnswer) -> (r: Result<Answer, Error>)
        requires
            old(self).wf(),
        ensures
            final(self).wf(),
            (final(self)@, answer_outcome_view(r)) == old(self)@.add_answer(new_answer@),
    {
        if self.next_answer_id == i32::MAX {
            return Err(Error::DatabaseQueryError);
        }
        let answer = Answer {
            id: AnswerId(self.next_answer_id),
            content: new_answer.content.clone(),
            question_id: new_answer.question_id,
        };
        let stored = Answer {
            id: answer.id,
            content: new_answer.content,
            question_id: answer.question_id,
        };
        self.answers.push(stored);
        self.next_answer_id = self.next_answer_id + 1;
        assert(self@.answers == old(self)@.answers.push(answer@));
        Ok(answer)
    }
}

} // verus!
