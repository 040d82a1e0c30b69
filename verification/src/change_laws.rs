//! What each change to the store leaves alone: a change touches the one
//! record it is about, and in that record the one field it is about.
use vstd::prelude::*;

use crate::db::DbView;
use crate::keyed::{find_key, has_key, lemma_find_key};
use crate::model::{OpenAnswerView, QuestionView, TopicView, UserView, VoteView};

verus! {

/// `d` is `db` with question `i` replaced by `q`, and nothing else changed.
pub open spec fn only_question_changed(db: DbView, d: DbView, i: int, q: QuestionView) -> bool {
    &&& d.topics == db.topics
    &&& d.users == db.users
    &&& d.next_id == db.next_id
    &&& d.questions.len() == db.questions.len()
    &&& 0 <= i < d.questions.len()
    &&& d.questions[i] == q
    &&& forall|k: int| 0 <= k < d.questions.len() && k != i ==> #[trigger] d.questions[k] == db.questions[k]
}

/// `r` is `q` with the same id, topic, text and kind.
pub open spec fn same_heading(q: QuestionView, r: QuestionView) -> bool {
    &&& r.id == q.id
    &&& r.topic_id == q.topic_id
    &&& r.text == q.text
    &&& r.kind == q.kind
}

/// A change to the first question with id `qid`: when there is none,
/// nothing changes and nothing is answered; else that question alone is
/// replaced by the answered one.
pub open spec fn changes_first_question(
    db: DbView,
    qid: Seq<char>,
    outcome: (DbView, Option<QuestionView>),
) -> bool {
    match find_key(db.questions, qid) {
        None => outcome.0 == db && outcome.1 is None,
        Some(i) => outcome.1 is Some && only_question_changed(db, outcome.0, i, outcome.1->0),
    }
}

/// Inserting an answer at `index` puts it at `index`, or at the end when
/// `index` is past it; the answers before stay in place, those after move
/// up by one, and nothing else of the question changes.
pub proof fn law_add_answer_inserts_one(db: DbView, qid: Seq<char>, index: nat, text: Seq<char>)
    ensures
        changes_first_question(db, qid, db.add_answer(qid, index, text)),
        has_key(db.questions, qid) ==> ({
            let q = db.questions[find_key(db.questions, qid)->0];
            let r = db.add_answer(qid, index, text).1->0;
            let n = q.answers.len();
            let at = if index <= n {
                index as int
            } else {
                n as int
            };
            &&& same_heading(q, r)
            &&& r.votes == q.votes && r.open_answers == q.open_answers
            &&& r.x_axis == q.x_axis && r.y_axis == q.y_axis
            &&& r.answers.len() == n + 1
            &&& r.answers[at] == text
            &&& forall|j: int| 0 <= j < at ==> #[trigger] r.answers[j] == q.answers[j]
            &&& forall|j: int| at < j <= n ==> #[trigger] r.answers[j] == q.answers[j - 1]
        }),
{
    lemma_find_key(db.questions, qid);
}

/// Editing answer `index` replaces that answer's text and nothing else: the
/// other answers, the votes, the open answers and the axes stay; an index
/// past the end changes nothing.
pub proof fn law_edit_answer_changes_one(db: DbView, qid: Seq<char>, index: nat, text: Seq<char>)
    ensures
        changes_first_question(db, qid, db.edit_answer(qid, index, text)),
        has_key(db.questions, qid) ==> ({
            let q = db.questions[find_key(db.questions, qid)->0];
            let r = db.edit_answer(qid, index, text).1->0;
            &&& same_heading(q, r)
            &&& r.votes == q.votes && r.open_answers == q.open_answers
            &&& r.x_axis == q.x_axis && r.y_axis == q.y_axis
            &&& r.answers.len() == q.answers.len()
            &&& forall|j: int|
                0 <= j < q.answers.len() ==> #[trigger] r.answers[j] == if j == index {
                    text
                } else {
                    q.answers[j]
                }
        }),
{
    lemma_find_key(db.questions, qid);
}

/// Deleting answer `index` removes that answer alone: those before stay in
/// place, those after move down by one, and nothing else of the question
/// changes; an index past the end changes nothing.
pub proof fn law_delete_answer_removes_one(db: DbView, qid: Seq<char>, index: nat)
    ensures
        changes_first_question(db, qid, db.delete_answer(qid, index)),
        has_key(db.questions, qid) ==> ({
            let q = db.questions[find_key(db.questions, qid)->0];
            let r = db.delete_answer(qid, index).1->0;
            let n = q.answers.len();
            &&& same_heading(q, r)
            &&& r.votes == q.votes && r.open_answers == q.open_answers
            &&& r.x_axis == q.x_axis && r.y_axis == q.y_axis
            &&& index >= n ==> r.answers == q.answers
            &&& index < n ==> {
                &&& r.answers.len() == n - 1
                &&& forall|j: int| 0 <= j < index ==> #[trigger] r.answers[j] == q.answers[j]
                &&& forall|j: int| index <= j < n - 1 ==> #[trigger] r.answers[j] == q.answers[j + 1]
            }
        }),
{
    lemma_find_key(db.questions, qid);
}

/// Voting moves the user's first vote and leaves every other vote in place;
/// a user without a vote gets one added after all the others. Nothing else
/// of the question changes.
pub proof fn law_cast_vote_changes_one(db: DbView, qid: Seq<char>, user_name: Seq<char>, x: u64, y: u64)
    ensures
        changes_first_question(db, qid, db.cast_vote(qid, user_name, x, y)),
        has_key(db.questions, qid) ==> ({
            let q = db.questions[find_key(db.questions, qid)->0];
            let r = db.cast_vote(qid, user_name, x, y).1->0;
            let n = q.votes.len();
            &&& same_heading(q, r)
            &&& r.answers == q.answers && r.open_answers == q.open_answers
            &&& r.x_axis == q.x_axis && r.y_axis == q.y_axis
            &&& !has_key(q.votes, user_name) ==> {
                &&& r.votes.len() == n + 1
                &&& r.votes[n as int] == VoteView { user_name, x, y }
                &&& forall|j: int| 0 <= j < n ==> #[trigger] r.votes[j] == q.votes[j]
            }
            &&& has_key(q.votes, user_name) ==> {
                let j0 = find_key(q.votes, user_name)->0;
                &&& q.votes[j0].user_name == user_name
                &&& forall|j: int| 0 <= j < j0 ==> (#[trigger] q.votes[j]).user_name != user_name
                &&& r.votes.len() == n
                &&& r.votes[j0] == VoteView { user_name: q.votes[j0].user_name, x, y }
                &&& forall|j: int| 0 <= j < n && j != j0 ==> #[trigger] r.votes[j] == q.votes[j]
            }
        }),
{
    lemma_find_key(db.questions, qid);
    if has_key(db.questions, qid) {
        let q = db.questions[find_key(db.questions, qid)->0];
        lemma_find_key(q.votes, user_name);
    }
}

/// Giving an open answer replaces the text of the user's first answer and
/// leaves every other answer in place; a user without an answer gets one
/// added after all the others. Nothing else of the question changes.
pub proof fn law_add_open_answer_changes_one(
    db: DbView,
    qid: Seq<char>,
    user_name: Seq<char>,
    text: Seq<char>,
)
    ensures
        changes_first_question(db, qid, db.add_open_answer(qid, user_name, text)),
        has_key(db.questions, qid) ==> ({
            let q = db.questions[find_key(db.questions, qid)->0];
            let r = db.add_open_answer(qid, user_name, text).1->0;
            let n = q.open_answers.len();
            &&& same_heading(q, r)
            &&& r.answers == q.answers && r.votes == q.votes
            &&& r.x_axis == q.x_axis && r.y_axis == q.y_axis
            &&& !has_key(q.open_answers, user_name) ==> {
                &&& r.open_answers.len() == n + 1
                &&& r.open_answers[n as int] == OpenAnswerView { user_name, text }
                &&& forall|j: int| 0 <= j < n ==> #[trigger] r.open_answers[j] == q.open_answers[j]
            }
            &&& has_key(q.open_answers, user_name) ==> {
                let j0 = find_key(q.open_answers, user_name)->0;
                &&& q.open_answers[j0].user_name == user_name
                &&& forall|j: int|
                    0 <= j < j0 ==> (#[trigger] q.open_answers[j]).user_name != user_name
                &&& r.open_answers.len() == n
                &&& r.open_answers[j0] == OpenAnswerView {
                    user_name: q.open_answers[j0].user_name,
                    text,
                }
                &&& forall|j: int|
                    0 <= j < n && j != j0 ==> #[trigger] r.open_answers[j] == q.open_answers[j]
            }
        }),
{
    lemma_find_key(db.questions, qid);
    if has_key(db.questions, qid) {
        let q = db.questions[find_key(db.questions, qid)->0];
        lemma_find_key(q.open_answers, user_name);
    }
}

/// Setting the axes sets both axes and nothing else of the question.
pub proof fn law_set_axes_changes_axes(
    db: DbView,
    qid: Seq<char>,
    x_axis: Option<(Seq<char>, Seq<char>)>,
    y_axis: Option<(Seq<char>, Seq<char>)>,
)
    ensures
        changes_first_question(db, qid, db.set_axes(qid, x_axis, y_axis)),
        has_key(db.questions, qid) ==> ({
            let q = db.questions[find_key(db.questions, qid)->0];
            let r = db.set_axes(qid, x_axis, y_axis).1->0;
            &&& same_heading(q, r)
            &&& r.answers == q.answers && r.votes == q.votes && r.open_answers == q.open_answers
            &&& r.x_axis == x_axis && r.y_axis == y_axis
        }),
{
    lemma_find_key(db.questions, qid);
}

/// Storing a user changes only the first user of that name, and only their
/// shape and color; a new name is added after all the other users. Topics
/// and questions are untouched.
pub proof fn law_upsert_user_changes_one(db: DbView, u: UserView)
    ensures
        ({
            let d = db.upsert_user(u);
            let n = db.users.len();
            &&& d.topics == db.topics && d.questions == db.questions && d.next_id == db.next_id
            &&& !has_key(db.users, u.name) ==> {
                &&& d.users.len() == n + 1
                &&& d.users[n as int] == u
                &&& forall|j: int| 0 <= j < n ==> #[trigger] d.users[j] == db.users[j]
            }
            &&& has_key(db.users, u.name) ==> {
                let j0 = find_key(db.users, u.name)->0;
                &&& db.users[j0].name == u.name
                &&& forall|j: int| 0 <= j < j0 ==> (#[trigger] db.users[j]).name != u.name
                &&& d.users.len() == n
                &&& d.users[j0] == UserView { name: db.users[j0].name, shape: u.shape, color: u.color }
                &&& forall|j: int| 0 <= j < n && j != j0 ==> #[trigger] d.users[j] == db.users[j]
            }
        }),
{
    lemma_find_key(db.users, u.name);
}

/// Creating a topic adds it after all the others, under the next id, and
/// changes nothing else; the id counter moves on by one.
pub proof fn law_create_topic_adds_one(db: DbView, title: Seq<char>)
    ensures
        ({
            let d = db.create_topic(title);
            let n = db.topics.len();
            &&& d.questions == db.questions && d.users == db.users
            &&& d.next_id == db.next_id + 1
            &&& d.topics.len() == n + 1
            &&& d.topics[n as int] == TopicView { id: db.fresh_id(), title }
            &&& forall|j: int| 0 <= j < n ==> #[trigger] d.topics[j] == db.topics[j]
        }),
{
}

/// Creating a question adds it after all the others, under the next id,
/// with no answers, votes or axes, and changes nothing else; the id counter
/// moves on by one.
pub proof fn law_create_question_adds_one(
    db: DbView,
    topic_id: Seq<char>,
    text: Seq<char>,
    kind: crate::model::QuestionKind,
)
    ensures
        ({
            let d = db.create_question(topic_id, text, kind);
            let n = db.questions.len();
            let q = d.questions[n as int];
            &&& d.topics == db.topics && d.users == db.users
            &&& d.next_id == db.next_id + 1
            &&& d.questions.len() == n + 1
            &&& q.id == db.fresh_id() && q.topic_id == topic_id && q.text == text && q.kind == kind
            &&& q.answers.len() == 0 && q.votes.len() == 0 && q.open_answers.len() == 0
            &&& q.x_axis is None && q.y_axis is None
            &&& forall|j: int| 0 <= j < n ==> #[trigger] d.questions[j] == db.questions[j]
        }),
{
}

} // verus!
