use practical_rust_book::error::{return_error, Error, Rejection};
use practical_rust_book::query::QueryParams;
use practical_rust_book::routes::{
    add_answer, add_question, delete_question, get_questions, update_question,
};
use practical_rust_book::store::Store;
use practical_rust_book::types::{NewAnswer, NewQuestion, Question, QuestionId};

fn query(pairs: &[(&str, &str)]) -> QueryParams {
    let mut q = QueryParams::new();
    for (k, v) in pairs {
        q.insert(k.to_string(), v.to_string());
    }
    q
}

fn filled(n: usize) -> Store {
    let mut store = Store::new();
    for i in 0..n {
        let q = NewQuestion { title: format!("q{}", i), content: "c".to_string(), tags: None };
        add_question(&mut store, q).unwrap();
    }
    store
}

fn titles(qs: &[Question]) -> Vec<String> {
    qs.iter().map(|q| q.title.clone()).collect()
}

#[test]
fn listing_without_query_returns_everything() {
    let store = filled(3);
    let r = get_questions(QueryParams::new(), &store).unwrap();
    assert_eq!(titles(&r), vec!["q0", "q1", "q2"]);
}

#[test]
fn listing_returns_exactly_the_slice_asked_for() {
    let store = filled(5);
    for (start, end) in [(0, 0), (0, 5), (1, 3), (2, 5), (5, 5), (4, 5)] {
        let s = start.to_string();
        let e = end.to_string();
        let r = get_questions(query(&[("start", &s), ("end", &e)]), &store).unwrap();
        let want: Vec<String> = (start..end).map(|i| format!("q{}", i)).collect();
        assert_eq!(titles(&r), want);
    }
}

#[test]
fn listing_window_is_cut_at_the_end() {
    let store = filled(3);
    let r = get_questions(query(&[("start", "1"), ("end", "10")]), &store).unwrap();
    assert_eq!(titles(&r), vec!["q1", "q2"]);
    let r = get_questions(query(&[("start", "7"), ("end", "10")]), &store).unwrap();
    assert!(r.is_empty());
    let r = get_questions(query(&[("start", "2"), ("end", "1")]), &store).unwrap();
    assert!(r.is_empty());
}

#[test]
fn listing_with_incomplete_query_is_missing_parameters() {
    let store = filled(2);
    let r = get_questions(query(&[("start", "1")]), &store);
    assert!(matches!(r, Err(Error::MissingParameters)));
    let r = get_questions(query(&[("page", "1")]), &store);
    assert!(matches!(r, Err(Error::MissingParameters)));
}

#[test]
fn listing_with_bad_number_is_rejected_as_unprocessable() {
    let store = filled(2);
    let r = get_questions(query(&[("start", "a"), ("end", "2")]), &store);
    let e = r.unwrap_err();
    assert!(matches!(e, Error::ParseError(_)));
    assert_eq!(return_error(Rejection::Custom(e)).status, 422);
}

#[test]
fn posting_a_question_confirms_and_stores_it() {
    let mut store = filled(2);
    let q = NewQuestion { title: "t".to_string(), content: "c".to_string(), tags: None };
    assert_eq!(add_question(&mut store, q).unwrap(), "Question added");
    let all = get_questions(QueryParams::new(), &store).unwrap();
    let last = all.last().unwrap();
    assert_eq!(last.title, "t");
    assert_eq!(last.content, "c");
    assert_eq!(last.tags, None);
    assert_eq!(last.id, QuestionId(3));
    assert!(all[..2].iter().all(|q| q.id != last.id));
}

#[test]
fn putting_a_question_returns_it_updated() {
    let mut store = filled(2);
    let q = Question {
        id: QuestionId(1),
        title: "new".to_string(),
        content: "text".to_string(),
        tags: Some(vec!["tag".to_string()]),
    };
    let r = update_question(1, &mut store, q).unwrap();
    assert_eq!(r.id, QuestionId(1));
    assert_eq!(r.title, "new");
    assert_eq!(r.tags, Some(vec!["tag".to_string()]));
}

#[test]
fn putting_a_missing_question_is_unprocessable() {
    let mut store = filled(2);
    let q = Question {
        id: QuestionId(9),
        title: "x".to_string(),
        content: "y".to_string(),
        tags: None,
    };
    let e = update_question(9, &mut store, q).unwrap_err();
    assert!(matches!(e, Error::QuestionNotFound));
    assert_eq!(return_error(Rejection::Custom(e)).status, 422);
}

#[test]
fn deleting_twice_is_ok_then_unprocessable() {
    let mut store = filled(12);
    assert_eq!(delete_question(12, &mut store).unwrap(), "Question 12 deleted");
    let e = delete_question(12, &mut store).unwrap_err();
    assert_eq!(return_error(Rejection::Custom(e)).status, 422);
    assert_eq!(delete_question(1, &mut store).unwrap(), "Question 1 deleted");
}

#[test]
fn deleting_a_negative_id_is_not_found() {
    let mut store = filled(1);
    let e = delete_question(-3, &mut store).unwrap_err();
    assert!(matches!(e, Error::QuestionNotFound));
}

#[test]
fn posting_an_answer_confirms_it() {
    let mut store = filled(1);
    let a = NewAnswer { content: "because".to_string(), question_id: QuestionId(1) };
    assert_eq!(add_answer(&mut store, a).unwrap(), "Answer added");
}
