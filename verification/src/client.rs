//! What the pages of the client decide, apart from drawing.
use vstd::prelude::*;

use crate::decimal::{decimal, u64_to_decimal};
use crate::keyed::{find_index, find_key};
use crate::model::{Question, QuestionKind, QuestionView, Shape, User, UserView, Vote, VoteView};
use crate::text::{is_blank, matches_typed, name_matches, str_is_blank, trim, trimmed};

verus! {

/// The name a shape is shown under.
pub open spec fn shape_label(s: Shape) -> Seq<char> {
    match s {
        Shape::Circle => "Circle"@,
        Shape::Square => "Square"@,
        Shape::Triangle => "Triangle"@,
        Shape::Diamond => "Diamond"@,
        Shape::Star => "Star"@,
        Shape::Hexagon => "Hexagon"@,
        Shape::Heart => "Heart"@,
        Shape::Arrow => "Arrow"@,
        Shape::Lightning => "Lightning"@,
        Shape::Drop => "Drop"@,
        Shape::Leaf => "Leaf"@,
        Shape::Cross => "Cross"@,
    }
}

/// The name a shape is shown under.
pub fn shape_name(shape: &Shape) -> (name: &'static str)
    ensures
        name@ == shape_label(*shape),
{
    match shape {
        Shape::Circle => "Circle",
        Shape::Square => "Square",
        Shape::Triangle => "Triangle",
        Shape::Diamond => "Diamond",
        Shape::Star => "Star",
        Shape::Hexagon => "Hexagon",
        Shape::Heart => "Heart",
        Shape::Arrow => "Arrow",
        Shape::Lightning => "Lightning",
        Shape::Drop => "Drop",
        Shape::Leaf => "Leaf",
        Shape::Cross => "Cross",
    }
}

/// How many positions have been voiced on a question: its answers if it
/// is closed, its free-text answers if it is open.
pub open spec fn voiced(q: QuestionView) -> nat {
    match q.kind {
        QuestionKind::Open => q.open_answers.len(),
        QuestionKind::Closed => q.answers.len(),
    }
}

/// The line under a question in its topic's list.
pub open spec fn subtitle(n: nat) -> Seq<char> {
    if n == 0 {
        "yet unvoiced"@
    } else {
        decimal(n) + " positions voiced"@
    }
}

/// The line under a question in its topic's list.
pub fn question_subtitle(q: &Question) -> (s: String)
    ensures
        s@ == subtitle(voiced(q@)),
{
    let n: usize = match q.kind {
        QuestionKind::Open => q.open_answers.len(),
        QuestionKind::Closed => q.answers.len(),
    };
    if n == 0 {
        String::from_str("yet unvoiced")
    } else {
        let mut s = u64_to_decimal(n as u64);
        s.append(" positions voiced");
        s
    }
}

/// The label of a question's kind in its topic's list.
pub fn kind_label(kind: QuestionKind) -> (s: &'static str)
    ensures
        s@ == (match kind {
            QuestionKind::Open => "open"@,
            QuestionKind::Closed => "closed"@,
        }),
{
    match kind {
        QuestionKind::Open => "open",
        QuestionKind::Closed => "closed",
    }
}

/// The number of tokens an open answer may have before it is flagged.
pub const TOKEN_LIMIT: usize = 128;

/// The token counter under the answer box: `n/128 tokens`, `0/128 tokens`
/// before anything has been counted.
pub fn token_counter_label(count: Option<usize>) -> (s: String)
    ensures
        s@ == decimal(
            match count {
                Some(n) => n as nat,
                None => 0,
            },
        ) + "/128 tokens"@,
{
    let n: usize = match count {
        Some(n) => n,
        None => 0,
    };
    let mut s = u64_to_decimal(n as u64);
    s.append("/128 tokens");
    s
}

/// Whether the token counter is shown as over the limit.
pub fn over_token_limit(count: Option<usize>) -> (b: bool)
    ensures
        b == (match count {
            Some(n) => n > TOKEN_LIMIT,
            None => false,
        }),
{
    match count {
        Some(n) => n > TOKEN_LIMIT,
        None => false,
    }
}

/// The number of "+" buttons on the rim of a circle with `n` answers:
/// one between each two neighbours, and one on an empty circle.
pub fn add_button_count(n: usize) -> (c: usize)
    ensures
        c == if n == 0 {
            1
        } else {
            n
        },
{
    if n == 0 {
        1
    } else {
        n
    }
}

/// The position at which the "+" button after answer `i` inserts: right
/// after it, which for the last answer is the front of the list.
pub fn add_button_index(i: usize, n: usize) -> (idx: usize)
    requires
        n == 0 || i < n,
    ensures
        idx == if n == 0 {
            0
        } else {
            (i + 1) % (n as int)
        },
{
    if n == 0 {
        0
    } else if i + 1 == n {
        proof {
            vstd::arithmetic::div_mod::lemma_mod_self_0(n as int);
        }
        0
    } else {
        proof {
            vstd::arithmetic::div_mod::lemma_small_mod((i + 1) as nat, n as nat);
        }
        i + 1
    }
}

/// The answer added with the "+" button after answer `i` lands right after
/// it going round the circle: the answer before the new one (the last
/// answer, when the new one is first) is answer `i`.
pub proof fn law_add_button_inserts_after(q: QuestionView, i: nat, text: Seq<char>)
    requires
        i < q.answers.len(),
    ensures
        ({
            let n = q.answers.len();
            let idx: nat = (i + 1) % n;
            let r = q.insert_answer(idx, text);
            let before = if idx == 0 {
                n as int
            } else {
                idx - 1
            };
            &&& r.answers.len() == n + 1
            &&& r.answers[idx as int] == text
            &&& r.answers[before] == q.answers[i as int]
        }),
{
    let n = q.answers.len();
    if i + 1 == n {
        vstd::arithmetic::div_mod::lemma_mod_self_0(n as int);
    } else {
        vstd::arithmetic::div_mod::lemma_small_mod((i + 1) as nat, n as nat);
    }
}

/// A vote moved by another user, as a client applies it to the question
/// it shows: the same change the server makes when the vote is stored.
/// A move of the client's own user is already shown and is ignored.
pub fn apply_vote_moved(q: &mut Question, my_name: &String, user_name: String, x: u64, y: u64)
    ensures
        final(q)@ == if user_name@ == my_name@ {
            old(q)@
        } else {
            old(q)@.cast_vote(user_name@, x, y)
        },
{
    if user_name == *my_name {
        return;
    }
    let ghost old_q = q@;
    match find_index(&q.votes, &user_name) {
        Some(j) => {
            let mut v = q.votes.remove(j);
            v.x = x;
            v.y = y;
            q.votes.insert(j, v);
            assert(q@.votes =~= old_q.votes.update(
                j as int,
                VoteView { user_name: old_q.votes[j as int].user_name, x, y },
            ));
        },
        None => {
            q.votes.push(Vote { user_name, x, y });
            assert(q@.votes =~= old_q.votes.push(VoteView { user_name: user_name@, x, y }));
        },
    }
}

/// The axis the positions are requested with: none unless both ends are
/// filled in.
pub fn axis_for_positions(neg: &str, pos: &str) -> (r: Option<(String, String)>)
    ensures
        r.deep_view() == if is_blank(neg@) || is_blank(pos@) {
            None
        } else {
            Some((neg@, pos@))
        },
{
    if str_is_blank(neg) || str_is_blank(pos) {
        None
    } else {
        Some((String::from_str(neg), String::from_str(pos)))
    }
}

/// The axis sent when the user saves it: none when both ends are empty.
pub fn axis_to_send(neg: &str, pos: &str) -> (r: Option<(String, String)>)
    ensures
        r.deep_view() == if is_blank(neg@) && is_blank(pos@) {
            None
        } else {
            Some((neg@, pos@))
        },
{
    if str_is_blank(neg) && str_is_blank(pos) {
        None
    } else {
        Some((String::from_str(neg), String::from_str(pos)))
    }
}

/// Whether a text typed into a prompt is worth sending: not blank, and,
/// when it amends an answer, different from what was there.
pub fn accept_prompt(text: &str, previous: Option<&str>) -> (b: bool)
    ensures
        b == (!is_blank(text@) && match previous {
            Some(p) => text@ != p@,
            None => true,
        }),
{
    if str_is_blank(text) {
        return false;
    }
    match previous {
        Some(p) => String::from_str(text) != String::from_str(p),
        None => true,
    }
}

/// The user saved from the identity editor: the typed name without
/// surrounding white space, and the picked shape and color; none when the
/// name is blank.
pub fn user_from_editor(name_input: &str, shape: Shape, color: String) -> (r: Option<User>)
    ensures
        match r {
            None => is_blank(name_input@),
            Some(u) => !is_blank(name_input@) && u@ == UserView {
                name: trim(name_input@),
                shape,
                color: color@,
            },
        },
{
    if str_is_blank(name_input) {
        None
    } else {
        Some(User { name: trimmed(name_input), shape, color })
    }
}

/// The known users offered while a name is typed: those whose name
/// contains the input, ignoring case, in the order they are known.
pub open spec fn suggestions(users: Seq<UserView>, typed: Seq<char>) -> Seq<UserView>
    decreases users.len(),
{
    if users.len() == 0 {
        Seq::empty()
    } else if matches_typed(users.last().name, typed) {
        suggestions(users.drop_last(), typed).push(users.last())
    } else {
        suggestions(users.drop_last(), typed)
    }
}

/// Every known user whose name matches the typed input is offered, and
/// only those, in the order they are known: the offer is the known users
/// filtered by the match.
pub proof fn law_suggestions_are_the_matches(users: Seq<UserView>, typed: Seq<char>)
    ensures
        suggestions(users, typed) == users.filter(|u: UserView| matches_typed(u.name, typed)),
    decreases users.len(),
{
    reveal(Seq::filter);
    if users.len() > 0 {
        law_suggestions_are_the_matches(users.drop_last(), typed);
    }
}

/// The known users offered while a name is typed.
pub fn name_suggestions(users: &Vec<User>, typed: &str) -> (r: Vec<User>)
    ensures
        r.deep_view() == suggestions(users.deep_view(), typed@),
{
    let ghost us = users.deep_view();
    let mut r: Vec<User> = Vec::new();
    let mut i: usize = 0;
    while i < users.len()
        invariant
            i <= users.len(),
            us == users.deep_view(),
            r.deep_view() == suggestions(us.take(i as int), typed@),
        decreases users.len() - i,
    {
        assert(us.take(i + 1).drop_last() =~= us.take(i as int));
        if name_matches(users[i].name.as_str(), typed) {
            r.push(users[i].copy());
            assert(r.deep_view() =~= suggestions(us.take(i + 1), typed@));
        }
        i = i + 1;
    }
    assert(us.take(i as int) =~= us);
    r
}

/// Where the knob of `user_name` starts on a closed question: at their
/// vote, or at the centre (`0.0`, whose bit pattern is 0) if they have none.
pub fn knob_start(q: &Question, user_name: &String) -> (xy: (u64, u64))
    ensures
        xy == match find_key(q@.votes, user_name@) {
            Some(i) => (q@.votes[i].x, q@.votes[i].y),
            None => (0u64, 0u64),
        },
{
    match find_index(&q.votes, user_name) {
        Some(i) => (q.votes[i].x, q.votes[i].y),
        None => (0, 0),
    }
}

/// The text already given by `user_name` on an open question, if any.
pub fn own_open_answer(q: &Question, user_name: &String) -> (text: Option<String>)
    ensures
        text.deep_view() == match find_key(q@.open_answers, user_name@) {
            Some(i) => Some(q@.open_answers[i].text),
            None => None,
        },
{
    match find_index(&q.open_answers, user_name) {
        Some(i) => Some(q.open_answers[i].text.clone()),
        None => None,
    }
}

/// The avatar shown for `user_name`: the shape and color of the first
/// known user of that name, or a grey circle for an unknown one.
pub fn avatar_of(users: &Vec<User>, user_name: &String) -> (avatar: (Shape, String))
    ensures
        match find_key(users.deep_view(), user_name@) {
            Some(i) => avatar.0 == users.deep_view()[i].shape && avatar.1@ == users.deep_view()[i].color,
            None => avatar.0 == Shape::Circle && avatar.1@ == "#808080"@,
        },
{
    match find_index(users, user_name) {
        Some(i) => (users[i].shape, users[i].color.clone()),
        None => (Shape::Circle, String::from_str("#808080")),
    }
}

} // verus!
