use mace_reforge::db::Db;
use mace_reforge::model::{QuestionKind, Shape, User};

fn s(x: &str) -> String {
    x.to_string()
}

fn board() -> Db {
    let mut db = Db::new();
    db.create_topic(s("Ethics"));
    db.create_topic(s("Cooking"));
    db.create_question(s("1"), s("Is lying ever right?"), QuestionKind::Closed);
    db.create_question(s("1"), s("What is courage?"), QuestionKind::Open);
    db.create_question(s("2"), s("Salt first?"), QuestionKind::Closed);
    db
}

#[test]
fn ids_count_up_in_decimal() {
    let mut db = Db::new();
    assert_eq!(db.new_id(), "1");
    assert_eq!(db.new_id(), "2");
    db.next_id = 9;
    assert_eq!(db.new_id(), "10");
    assert_eq!(db.next_id, 10);
}

#[test]
fn create_topic_then_get_topic() {
    let mut db = Db::new();
    let t = db.create_topic(s("Ethics"));
    assert_eq!(t.id, "1");
    assert_eq!(t.title, "Ethics");
    assert_eq!(t.question_count, 0);
    let got = db.get_topic(&s("1")).unwrap();
    assert_eq!(got.title, "Ethics");
    assert!(db.get_topic(&s("2")).is_none());
}

#[test]
fn topics_list_their_question_counts() {
    let db = board();
    let topics = db.get_topics();
    assert_eq!(topics.len(), 2);
    assert_eq!((topics[0].id.as_str(), topics[0].question_count), ("1", 2));
    assert_eq!((topics[1].id.as_str(), topics[1].question_count), ("2", 1));
    assert_eq!(db.question_count(&s("1")), db.get_questions(&s("1")).len());
    assert_eq!(db.question_count(&s("nope")), 0);
}

#[test]
fn create_question_adds_one_to_its_topic_only() {
    let mut db = board();
    let before_1 = db.question_count(&s("1"));
    let before_2 = db.question_count(&s("2"));
    let q = db.create_question(s("2"), s("Pepper?"), QuestionKind::Open);
    assert_eq!(q.id, "6");
    assert_eq!(q.kind, QuestionKind::Open);
    assert!(q.answers.is_empty() && q.votes.is_empty() && q.open_answers.is_empty());
    assert!(q.x_axis.is_none() && q.y_axis.is_none());
    assert_eq!(db.question_count(&s("1")), before_1);
    assert_eq!(db.question_count(&s("2")), before_2 + 1);
    assert_eq!(db.get_question(&s("6")).unwrap().text, "Pepper?");
}

#[test]
fn questions_of_a_topic_in_order() {
    let db = board();
    let qs = db.get_questions(&s("1"));
    let ids: Vec<&str> = qs.iter().map(|q| q.id.as_str()).collect();
    assert_eq!(ids, vec!["3", "4"]);
    assert!(db.get_questions(&s("9")).is_empty());
}

#[test]
fn add_answer_inserts_or_appends() {
    let mut db = board();
    let q = db.add_answer(&s("3"), 0, s("Never")).unwrap();
    assert_eq!(q.answers, vec![s("Never")]);
    let q = db.add_answer(&s("3"), 99, s("Always")).unwrap();
    assert_eq!(q.answers, vec![s("Never"), s("Always")]);
    let q = db.add_answer(&s("3"), 1, s("Sometimes")).unwrap();
    assert_eq!(q.answers, vec![s("Never"), s("Sometimes"), s("Always")]);
    assert_eq!(db.get_question(&s("3")).unwrap().answers.len(), 3);
}

#[test]
fn add_then_delete_answer_restores_question() {
    let mut db = board();
    db.add_answer(&s("3"), 0, s("Never"));
    db.add_answer(&s("3"), 1, s("Always"));
    let before = db.get_question(&s("3")).unwrap();
    let len = before.answers.len();
    db.add_answer(&s("3"), 7, s("Depends"));
    let after = db.delete_answer(&s("3"), len).unwrap();
    assert_eq!(after, before);
}

#[test]
fn edit_answer_replaces_only_in_range() {
    let mut db = board();
    db.add_answer(&s("3"), 0, s("Never"));
    db.add_answer(&s("3"), 1, s("Always"));
    let q = db.edit_answer(&s("3"), 1, s("Mostly")).unwrap();
    assert_eq!(q.answers, vec![s("Never"), s("Mostly")]);
    let q = db.edit_answer(&s("3"), 2, s("Ignored")).unwrap();
    assert_eq!(q.answers, vec![s("Never"), s("Mostly")]);
}

#[test]
fn delete_answer_out_of_range_changes_nothing() {
    let mut db = board();
    db.add_answer(&s("3"), 0, s("Never"));
    let q = db.delete_answer(&s("3"), 5).unwrap();
    assert_eq!(q.answers, vec![s("Never")]);
    let q = db.delete_answer(&s("3"), 0).unwrap();
    assert!(q.answers.is_empty());
}

#[test]
fn unknown_question_is_not_found_and_nothing_changes() {
    let mut db = board();
    let before = db.get_questions(&s("1"));
    assert!(db.add_answer(&s("77"), 0, s("x")).is_none());
    assert!(db.edit_answer(&s("77"), 0, s("x")).is_none());
    assert!(db.delete_answer(&s("77"), 0).is_none());
    assert!(db.cast_vote(&s("77"), s("ann"), 1, 2).is_none());
    assert!(db.add_open_answer(&s("77"), s("ann"), s("x")).is_none());
    assert!(db.set_axes(&s("77"), None, None).is_none());
    assert!(db.get_question(&s("77")).is_none());
    assert_eq!(db.get_questions(&s("1")), before);
}

#[test]
fn cast_vote_moves_the_users_vote() {
    let mut db = board();
    let x1 = 0.25f64.to_bits();
    let y1 = (-0.5f64).to_bits();
    let q = db.cast_vote(&s("3"), s("ann"), x1, y1).unwrap();
    assert_eq!(q.votes.len(), 1);
    let q = db.cast_vote(&s("3"), s("bob"), 0, 0).unwrap();
    assert_eq!(q.votes.len(), 2);
    let x2 = 0.75f64.to_bits();
    let q = db.cast_vote(&s("3"), s("ann"), x2, y1).unwrap();
    assert_eq!(q.votes.len(), 2);
    assert_eq!(q.votes[0].user_name, "ann");
    assert_eq!(f64::from_bits(q.votes[0].x), 0.75);
    assert_eq!(f64::from_bits(q.votes[0].y), -0.5);
    assert_eq!(q.votes[1].user_name, "bob");
}

#[test]
fn casting_the_same_vote_twice_is_casting_it_once() {
    let mut db = board();
    let once = db.cast_vote(&s("3"), s("ann"), 1, 2).unwrap();
    let twice = db.cast_vote(&s("3"), s("ann"), 1, 2).unwrap();
    assert_eq!(once, twice);
    assert_eq!(twice.votes.iter().filter(|v| v.user_name == "ann").count(), 1);
}

#[test]
fn open_answers_one_per_user() {
    let mut db = board();
    db.add_open_answer(&s("4"), s("ann"), s("Fear mastered"));
    db.add_open_answer(&s("4"), s("bob"), s("Acting anyway"));
    let q = db.add_open_answer(&s("4"), s("ann"), s("Fear faced")).unwrap();
    assert_eq!(q.open_answers.len(), 2);
    assert_eq!(q.open_answers[0].user_name, "ann");
    assert_eq!(q.open_answers[0].text, "Fear faced");
    let again = db.add_open_answer(&s("4"), s("ann"), s("Fear faced")).unwrap();
    assert_eq!(again, q);
    let pairs = db.open_answer_pairs(&s("4"));
    assert_eq!(pairs, vec![(s("ann"), s("Fear faced")), (s("bob"), s("Acting anyway"))]);
    assert!(db.open_answer_pairs(&s("404")).is_empty());
}

#[test]
fn set_axes_replaces_both() {
    let mut db = board();
    let q = db
        .set_axes(&s("4"), Some((s("calm"), s("bold"))), None)
        .unwrap();
    assert_eq!(q.x_axis, Some((s("calm"), s("bold"))));
    assert_eq!(q.y_axis, None);
    let q = db.set_axes(&s("4"), None, Some((s("old"), s("new")))).unwrap();
    assert_eq!(q.x_axis, None);
    assert_eq!(q.y_axis, Some((s("old"), s("new"))));
}

#[test]
fn upsert_user_updates_by_name() {
    let mut db = Db::new();
    let users = db.upsert_user(User { name: s("ann"), shape: Shape::Star, color: s("#c0392b") });
    assert_eq!(users.len(), 1);
    db.upsert_user(User { name: s("bob"), shape: Shape::Circle, color: s("#2980b9") });
    let users = db.upsert_user(User { name: s("ann"), shape: Shape::Heart, color: s("#27ae60") });
    assert_eq!(users.len(), 2);
    assert_eq!(users[0].shape, Shape::Heart);
    assert_eq!(users[0].color, "#27ae60");
    let again = db.upsert_user(User { name: s("ann"), shape: Shape::Heart, color: s("#27ae60") });
    assert_eq!(again, users);
    assert_eq!(db.get_users(), users);
}

#[test]
fn topic_ids_never_repeat() {
    let mut db = board();
    let t = db.create_topic(s("New"));
    assert_eq!(t.id, "6");
    let ids: Vec<String> = db.get_topics().into_iter().map(|t| t.id).collect();
    for (i, a) in ids.iter().enumerate() {
        for b in &ids[i + 1..] {
            assert_ne!(a, b);
        }
    }
}

#[test]
fn delete_then_add_answer_restores_question() {
    let mut db = board();
    db.add_answer(&s("3"), 0, s("Never"));
    db.add_answer(&s("3"), 1, s("Always"));
    let before = db.get_question(&s("3")).unwrap();
    db.delete_answer(&s("3"), 0);
    let after = db.add_answer(&s("3"), 0, s("Never")).unwrap();
    assert_eq!(after, before);
}

#[test]
fn every_change_reads_back() {
    let mut db = board();
    let q = db.add_answer(&s("3"), 0, s("Never")).unwrap();
    assert_eq!(db.get_question(&s("3")), Some(q));
    let q = db.edit_answer(&s("3"), 0, s("Rarely")).unwrap();
    assert_eq!(db.get_question(&s("3")), Some(q));
    let q = db.cast_vote(&s("3"), s("ann"), 3, 4).unwrap();
    assert_eq!(db.get_question(&s("3")), Some(q));
    let q = db.delete_answer(&s("3"), 0).unwrap();
    assert_eq!(db.get_question(&s("3")), Some(q));
    let q = db.add_open_answer(&s("4"), s("ann"), s("x")).unwrap();
    assert_eq!(db.get_question(&s("4")), Some(q));
    let q = db.set_axes(&s("4"), Some((s("a"), s("b"))), Some((s("c"), s("d")))).unwrap();
    assert_eq!(db.get_question(&s("4")), Some(q));
}
