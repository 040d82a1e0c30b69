use mace_reforge::client::{
    accept_prompt, avatar_of, knob_start, own_open_answer, add_button_count, add_button_index, apply_vote_moved, axis_for_positions,
    axis_to_send, kind_label, name_suggestions, over_token_limit, question_subtitle, shape_name,
    token_counter_label, user_from_editor,
};
use mace_reforge::db::Db;
use mace_reforge::live::{axis_cache_key, ws_step, WsAction, WsEvent};
use mace_reforge::model::{Question, QuestionKind, Shape, User, Vote};
use mace_reforge::text::{str_contains, str_is_blank, trimmed};

fn s(x: &str) -> String {
    x.to_string()
}

fn question(kind: QuestionKind) -> Question {
    Question {
        id: s("1"),
        topic_id: s("1"),
        text: s("?"),
        kind,
        answers: vec![],
        votes: vec![],
        open_answers: vec![],
        x_axis: None,
        y_axis: None,
    }
}

#[test]
fn shape_names() {
    assert_eq!(shape_name(&Shape::Circle), "Circle");
    assert_eq!(shape_name(&Shape::Hexagon), "Hexagon");
    assert_eq!(shape_name(&Shape::Lightning), "Lightning");
}

#[test]
fn subtitles_and_kinds() {
    let mut q = question(QuestionKind::Closed);
    assert_eq!(question_subtitle(&q), "yet unvoiced");
    q.answers = vec![s("a"), s("b"), s("c")];
    assert_eq!(question_subtitle(&q), "3 positions voiced");
    q.kind = QuestionKind::Open;
    assert_eq!(question_subtitle(&q), "yet unvoiced");
    assert_eq!(kind_label(QuestionKind::Open), "open");
    assert_eq!(kind_label(QuestionKind::Closed), "closed");
    assert_eq!(QuestionKind::default(), QuestionKind::Closed);
}

#[test]
fn token_counter() {
    assert_eq!(token_counter_label(None), "0/128 tokens");
    assert_eq!(token_counter_label(Some(17)), "17/128 tokens");
    assert!(!over_token_limit(None));
    assert!(!over_token_limit(Some(128)));
    assert!(over_token_limit(Some(129)));
}

#[test]
fn add_buttons_on_the_rim() {
    assert_eq!(add_button_count(0), 1);
    assert_eq!(add_button_count(4), 4);
    assert_eq!(add_button_index(0, 0), 0);
    assert_eq!(add_button_index(0, 3), 1);
    assert_eq!(add_button_index(2, 3), 0);
}

#[test]
fn live_vote_from_another_user_matches_the_server() {
    let mut db = Db::new();
    db.create_topic(s("t"));
    let mut shown = db.create_question(s("1"), s("q"), QuestionKind::Closed);
    db.cast_vote(&s("2"), s("ann"), 5, 6);
    shown.votes.push(Vote { user_name: s("ann"), x: 5, y: 6 });
    apply_vote_moved(&mut shown, &s("me"), s("ann"), 7, 8);
    apply_vote_moved(&mut shown, &s("me"), s("bob"), 1, 1);
    db.cast_vote(&s("2"), s("ann"), 7, 8);
    let stored = db.cast_vote(&s("2"), s("bob"), 1, 1).unwrap();
    assert_eq!(shown, stored);
    let before = shown.clone();
    apply_vote_moved(&mut shown, &s("me"), s("me"), 9, 9);
    assert_eq!(shown, before);
}

#[test]
fn axes_from_inputs() {
    assert_eq!(axis_for_positions("calm", "bold"), Some((s("calm"), s("bold"))));
    assert_eq!(axis_for_positions("calm", "  "), None);
    assert_eq!(axis_to_send("calm", "  "), Some((s("calm"), s("  "))));
    assert_eq!(axis_to_send(" ", "\t"), None);
}

#[test]
fn prompts() {
    assert!(!accept_prompt("   ", None));
    assert!(accept_prompt("Never", None));
    assert!(!accept_prompt("Never", Some("Never")));
    assert!(accept_prompt("Never!", Some("Never")));
}

#[test]
fn identity_editor_trims_the_name() {
    let u = user_from_editor("  ann \n", Shape::Star, s("#c0392b")).unwrap();
    assert_eq!(u, User { name: s("ann"), shape: Shape::Star, color: s("#c0392b") });
    assert!(user_from_editor(" \u{3000} ", Shape::Star, s("#c0392b")).is_none());
}

#[test]
fn suggestions_ignore_case() {
    let users = vec![
        User { name: s("Alice"), shape: Shape::Circle, color: s("#fff") },
        User { name: s("Bob"), shape: Shape::Square, color: s("#000") },
        User { name: s("Malik"), shape: Shape::Star, color: s("#111") },
    ];
    let names = |typed: &str| -> Vec<String> {
        name_suggestions(&users, typed).into_iter().map(|u| u.name).collect()
    };
    assert_eq!(names("ALI"), vec![s("Alice"), s("Malik")]);
    assert_eq!(names("b"), vec![s("Bob")]);
    assert!(names("").is_empty());
    assert!(names("zed").is_empty());
}

#[test]
fn blank_trim_contains() {
    assert!(str_is_blank(""));
    assert!(str_is_blank(" \t\n"));
    assert!(!str_is_blank(" x "));
    assert_eq!(trimmed("  bob  "), "bob");
    assert_eq!(trimmed("\u{2003}a b\u{85}"), "a b");
    assert_eq!(trimmed("   "), "");
    assert!(str_contains("courage", "rag"));
    assert!(str_contains("courage", ""));
    assert!(!str_contains("courage", "cage"));
    assert!(!str_contains("ab", "abc"));
}

#[test]
fn live_channel_decisions() {
    assert_eq!(ws_step(WsEvent::ClientText(s("hi"))), WsAction::Broadcast(s("hi")));
    assert_eq!(ws_step(WsEvent::ClientPing(vec![1, 2])), WsAction::Pong(vec![1, 2]));
    assert_eq!(ws_step(WsEvent::Relayed(s("m"))), WsAction::Send(s("m")));
    assert_eq!(ws_step(WsEvent::ClientGone), WsAction::Stop);
    assert_eq!(ws_step(WsEvent::RelayFailed), WsAction::Stop);
    assert_eq!(ws_step(WsEvent::SendFailed), WsAction::Stop);
}

#[test]
fn axis_keys() {
    assert_eq!(axis_cache_key("calm"), "__axis:calm__");
    assert_eq!(axis_cache_key(""), "__axis:__");
}

#[test]
fn knob_starts_at_own_vote_or_centre() {
    let mut q = question(QuestionKind::Closed);
    q.votes.push(Vote { user_name: s("ann"), x: 0.5f64.to_bits(), y: (-0.25f64).to_bits() });
    let (x, y) = knob_start(&q, &s("ann"));
    assert_eq!((f64::from_bits(x), f64::from_bits(y)), (0.5, -0.25));
    let (x, y) = knob_start(&q, &s("bob"));
    assert_eq!((f64::from_bits(x), f64::from_bits(y)), (0.0, 0.0));
}

#[test]
fn own_open_answer_is_found_by_name() {
    let mut db = Db::new();
    db.create_topic(s("t"));
    db.create_question(s("1"), s("q"), QuestionKind::Open);
    let q = db.add_open_answer(&s("2"), s("ann"), s("Boldness")).unwrap();
    assert_eq!(own_open_answer(&q, &s("ann")), Some(s("Boldness")));
    assert_eq!(own_open_answer(&q, &s("bob")), None);
}

#[test]
fn avatars_of_known_and_unknown_users() {
    let users = vec![User { name: s("ann"), shape: Shape::Star, color: s("#c0392b") }];
    assert_eq!(avatar_of(&users, &s("ann")), (Shape::Star, s("#c0392b")));
    assert_eq!(avatar_of(&users, &s("zed")), (Shape::Circle, s("#808080")));
}

#[test]
fn different_axis_texts_have_different_keys() {
    assert_ne!(axis_cache_key("a"), axis_cache_key("a__"));
    assert_ne!(axis_cache_key("calm"), axis_cache_key("bold"));
}

#[test]
fn trimming_to_nothing_is_being_blank() {
    for text in ["", " ", "\t\n", " a", "a ", "\u{00A0}"] {
        assert_eq!(trimmed(text).is_empty(), str_is_blank(text));
    }
}

#[test]
fn plus_button_adds_right_after_its_answer() {
    let mut db = Db::new();
    db.create_topic(s("t"));
    db.create_question(s("1"), s("q"), QuestionKind::Closed);
    for (i, a) in ["a", "b", "c"].iter().enumerate() {
        db.add_answer(&s("2"), i, s(a));
    }
    let q = db.add_answer(&s("2"), add_button_index(2, 3), s("d")).unwrap();
    assert_eq!(q.answers, vec![s("d"), s("a"), s("b"), s("c")]);
    let q = db.add_answer(&s("2"), add_button_index(0, 4), s("e")).unwrap();
    assert_eq!(q.answers, vec![s("d"), s("e"), s("a"), s("b"), s("c")]);
}
