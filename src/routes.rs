//! The request handlers: each decodes what the request asks for, calls the
//! store, and returns what the reply carries or the failure to render.

use crate::error::Error;
use crate::pagination::{extract_pagination, pagination_of, Pagination};
use crate::query::QueryParams;
use crate::store::{outcome_view, question_views, window, Store};
use crate::types::{NewAnswer, NewQuestion, Question, QuestionView};
use vstd::prelude::*;

verus! {

/// The decimal digit with value `d`.
pub open spec fn digit_char(d: nat) -> char {
    seq!['0', '1', '2', '3', '4', '5', '6', '7', '8', '9'][d as int]
}

/// The decimal text of `n`, without leading zeros.
pub open spec fn nat_text(n: nat) -> Seq<char>
    decreases n,
{
    if n < 10 {
        seq![digit_char(n)]
    } else {
        nat_text(n / 10).push(digit_char(n % 10))
    }
}

/// The decimal text of `n`, with a `-` in front when it is negative.
pub open spec fn int_text(n: int) -> Seq<char> {
    if n < 0 {
        seq!['-'] + nat_text((-n) as nat)
    } else {
        nat_text(n as nat)
    }
}

/// Relies on `i32`'s `Display` (through `to_string`): the decimal digits
/// of the number without leading zeros, after a `-` when it is negative.
#[verifier::external_body]
fn i32_text(n: i32) -> (r: String)
    ensures
        r@ == int_text(n as int),
{
    n.to_string()
}

/// The part of a listing that a pagination asks for: from `start` up to
/// `end`, cut off at the end of the listing, and empty when `end` comes
/// before `start`.
pub open spec fn page(qs: Seq<QuestionView>, p: Pagination) -> Seq<QuestionView> {
    window(
        qs,
        Some(
            if p.start <= p.end {
                (p.end - p.start) as usize
            } else {
                0usize
            },
        ),
        p.start,
    )
}

/// Lists the questions: all of them when the query is empty, else the page
/// that its `start` and `end` parameters ask for.
pub fn get_questions(params: QueryParams, store: &Store) -> (r: Result<Vec<Question>, Error>)
    ensures
        params@ == Map::<Seq<char>, Seq<char>>::empty() ==> (r matches Ok(qs) && question_views(
            qs@,
        ) == store@.questions),
        params@ != Map::<Seq<char>, Seq<char>>::empty() ==> match pagination_of(params@) {
            Err(e) => r == Err::<Vec<Question>, Error>(e),
            Ok(None) => r matches Err(Error::ParseError(_)),
            Ok(Some(p)) => r matches Ok(qs) && question_views(qs@) == page(store@.questions, p),
        },
        match pagination_of(params@) {
            Ok(Some(p)) => p.start <= p.end <= store@.questions.len() ==> (r matches Ok(qs)
                && question_views(qs@) == store@.questions.subrange(p.start as int, p.end as int)),
            _ => true,
        },
{
    if params.is_empty() {
        proof {
            assert(!params@.contains_key("start"@));
        }
        let r = store.get_questions(None, 0);
        proof {
            assert(store@.questions.subrange(0, store@.questions.len() as int) =~= store@.questions);
        }
        r
    } else {
        let pagination = match extract_pagination(params) {
            Ok(p) => p,
            Err(e) => return Err(e),
        };
        let limit = if pagination.start <= pagination.end {
            pagination.end - pagination.start
        } else {
            0
        };
        store.get_questions(Some(limit), pagination.start)
    }
}

/// Adds a question; the reply confirms it.
pub fn add_question(store: &mut Store, new_question: NewQuestion) -> (r: Result<String, Error>)
    requires
        old(store).wf(),
    ensures
        final(store).wf(),
        final(store)@ == old(store)@.add_question(new_question@).0,
        match old(store)@.add_question(new_question@).1 {
            Ok(_) => r matches Ok(m) && m@ == "Question added"@,
            Err(e) => r == Err::<String, Error>(e),
        },
{
    match store.add_question(new_question) {
        Ok(_) => Ok("Question added".to_owned()),
        Err(e) => Err(e),
    }
}

/// Replaces the question with identifier `id`; the reply carries it as
/// stored.
pub fn update_question(id: i32, store: &mut Store, question: Question) -> (r: Result<
    Question,
    Error,
>)
    requires
        old(store).wf(),
    ensures
        final(store).wf(),
        (final(store)@, outcome_view(r)) == old(store)@.update_question(
            question@,
            id,
        ),
{
    store.update_question(question, id)
}

/// The confirmation that the question with identifier `id` is deleted.
pub open spec fn deleted_text(id: i32) -> Seq<char> {
    "Question "@ + int_text(id as int) + " deleted"@
}

/// Deletes the question with identifier `id`; the reply confirms it.
pub fn delete_question(id: i32, store: &mut Store) -> (r: Result<String, Error>)
    requires
        old(store).wf(),
    ensures
        final(store).wf(),
        final(store)@ == old(store)@.delete_question(id).0,
        match old(store)@.delete_question(id).1 {
            Ok(_) => r matches Ok(m) && m@ == deleted_text(id),
            Err(e) => r == Err::<String, Error>(e),
        },
{
    match store.delete_question(id) {
        Ok(_) => {
            let mut m = "Question ".to_owned();
            let t = i32_text(id);
            m.append(t.as_str());
            m.append(" deleted");
            Ok(m)
        },
        Err(e) => Err(e),
    }
}

/// Adds an answer; the reply confirms it.
pub fn add_answer(store: &mut Store, new_answer: NewAnswer) -> (r: Result<String, Error>)
    requires
        old(store).wf(),
    ensures
        final(store).wf(),
        final(store)@ == old(store)@.add_answer(new_answer@).0,
        match old(store)@.add_answer(new_answer@).1 {
            Ok(_) => r matches Ok(m) && m@ == "Answer added"@,
            Err(e) => r == Err::<String, Error>(e),
        },
{
    match store.add_answer(new_answer) {
        Ok(_) => Ok("Answer added".to_owned()),
        Err(e) => Err(e),
    }
}

} // verus!
