//! The records kept by the store.

use vstd::prelude::*;

verus! {

/// Identifier of a question.
#[derive(Debug, Clone, Copy, PartialEq, Eq, Hash)]
pub struct QuestionId(pub i32);

/// A stored question.
#[derive(Debug, Clone)]
pub struct Question {
    pub id: QuestionId,
    pub title: String,
    pub content: String,
    pub tags: Option<Vec<String>>,
}

/// A question as submitted, before the store assigns it an identifier.
#[derive(Debug, Clone)]
pub struct NewQuestion {
    pub title: String,
    pub content: String,
    pub tags: Option<Vec<String>>,
}

/// Identifier of an answer.
#[derive(Debug, Clone, Copy, PartialEq, Eq, Hash)]
pub struct AnswerId(pub i32);

/// A stored answer, referring to the question it answers by identifier.
#[derive(Debug, Clone)]
pub struct Answer {
    pub id: AnswerId,
    pub content: String,
    pub question_id: QuestionId,
}

/// An answer as submitted, before the store assigns it an identifier.
#[derive(Debug, Clone)]
pub struct NewAnswer {
    pub content: String,
    pub question_id: QuestionId,
}

/// The text of a list of tags.
pub open spec fn tag_texts(tags: Seq<String>) -> Seq<Seq<char>> {
    tags.map_values(|t: String| t@)
}

/// The text of an optional list of tags.
pub open spec fn tags_view(tags: Option<Vec<String>>) -> Option<Seq<Seq<char>>> {
    match tags {
        Some(v) => Some(tag_texts(v@)),
        None => None,
    }
}

/// What a question holds, as text and numbers.
pub struct QuestionView {
    pub id: i32,
    pub title: Seq<char>,
    pub content: Seq<char>,
    pub tags: Option<Seq<Seq<char>>>,
}

impl View for Question {
    type V = QuestionView;

    open spec fn view(&self) -> QuestionView {
        QuestionView {
            id: self.id.0,
            title: self.title@,
            content: self.content@,
            tags: tags_view(self.tags),
        }
    }
}

/// What a submitted question holds, as text.
pub struct NewQuestionView {
    pub title: Seq<char>,
    pub content: Seq<char>,
    pub tags: Option<Seq<Seq<char>>>,
}

impl View for NewQuestion {
    type V = NewQuestionView;

    open spec fn view(&self) -> NewQuestionView {
        NewQuestionView { title: self.title@, content: self.content@, tags: tags_view(self.tags) }
    }
}

/// What an answer holds, as text and numbers.
pub struct AnswerView {
    pub id: i32,
    pub content: Seq<char>,
    pub question_id: i32,
}

impl View for Answer {
    type V = AnswerView;

    open spec fn view(&self) -> AnswerView {
        AnswerView { id: self.id.0, content: self.content@, question_id: self.question_id.0 }
    }
}

/// What a submitted answer holds.
pub struct NewAnswerView {
    pub content: Seq<char>,
    pub question_id: i32,
}

impl View for NewAnswer {
    type V = NewAnswerView;

    open spec fn view(&self) -> NewAnswerView {
        NewAnswerView { content: self.content@, question_id: self.question_id.0 }
    }
}

/// Copies a list of tags element by element.
fn copy_tags(tags: &Vec<String>) -> (r: Vec<String>)
    ensures
        r@ == tags@,
{
    let mut r: Vec<String> = Vec::new();
    let mut i: usize = 0;
    while i < tags.len()
        invariant
            i <= tags@.len(),
            r@ == tags@.subrange(0, i as int),
        decreases tags@.len() - i,
    {
        r.push(tags[i].clone());
        i = i + 1;
    }
    assert(r@ == tags@);
    r
}

impl Question {
    /// A copy of this question, equal to it in every field.
    pub fn duplicate(&self) -> (r: Question)
        ensures
            r@ == self@,
    {
        let tags = match &self.tags {
            Some(t) => Some(copy_tags(t)),
            None => None,
        };
        Question { id: self.id, title: self.title.clone(), content: self.content.clone(), tags }
    }
}

} // verus!
