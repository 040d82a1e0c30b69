//! What holds of the store across the server's operations.
use vstd::prelude::*;

use crate::db::{questions_of_topic, upsert_user, DbView, min_nat};
use crate::decimal::{decimal, lemma_decimal_injective};
use crate::keyed::{find_from, find_key, has_key, key_count, lemma_find_key, lemma_key_count_unique, unique_keys, Keyed};
use crate::model::{QuestionKind, QuestionView, TopicView, UserView, VoteView};

verus! {

/// `id` is one that the store has handed out: the decimal rendering of a
/// number from 1 to `next_id`.
pub open spec fn issued(id: Seq<char>, next_id: nat) -> bool {
    exists|k: nat| 1 <= k <= next_id && id == #[trigger] decimal(k)
}

impl DbView {
    /// The store as the server keeps it: every topic and question id was
    /// handed out by the store, no two topics, questions or users share a
    /// key, and no user has two votes or two open answers on a question.
    pub open spec fn wf(self) -> bool {
        &&& forall|i: int| 0 <= i < self.topics.len() ==> issued(#[trigger] self.topics[i].id, self.next_id)
        &&& forall|i: int|
            0 <= i < self.questions.len() ==> issued(#[trigger] self.questions[i].id, self.next_id)
        &&& unique_keys(self.topics)
        &&& unique_keys(self.questions)
        &&& unique_keys(self.users)
        &&& forall|i: int|
            0 <= i < self.questions.len() ==> unique_keys((#[trigger] self.questions[i]).votes)
                && unique_keys(self.questions[i].open_answers)
    }
}

// ── Lemmas on keyed sequences ───────────────────────────────────────

proof fn lemma_find_from_same_keys<V: Keyed>(s1: Seq<V>, s2: Seq<V>, k: Seq<char>, start: nat)
    requires
        s1.len() == s2.len(),
        forall|i: int| 0 <= i < s1.len() ==> (#[trigger] s1[i]).key() == s2[i].key(),
    ensures
        find_from(s1, k, start) == find_from(s2, k, start),
    decreases s1.len() - start,
{
    if start < s1.len() {
        assert(s1[start as int].key() == s2[start as int].key());
        lemma_find_from_same_keys(s1, s2, k, start + 1);
    }
}

/// Replacing a record by one with the same key finds the same records.
proof fn lemma_find_update_same_key<V: Keyed>(s: Seq<V>, i: int, x: V, k: Seq<char>)
    requires
        0 <= i < s.len(),
        x.key() == s[i].key(),
    ensures
        find_key(s.update(i, x), k) == find_key(s, k),
{
    assert forall|j: int| 0 <= j < s.len() implies (#[trigger] s.update(i, x)[j]).key() == s[j].key() by {
        if j == i {
        }
    }
    lemma_find_from_same_keys(s.update(i, x), s, k, 0);
}

proof fn lemma_find_from_push<V: Keyed>(s: Seq<V>, x: V, k: Seq<char>, start: nat)
    requires
        start <= s.len(),
    ensures
        find_from(s.push(x), k, start) == match find_from(s, k, start) {
            Some(i) => Some(i),
            None => if x.key() == k {
                Some(s.len() as int)
            } else {
                None
            },
        },
    decreases s.len() - start,
{
    if start < s.len() {
        assert(s.push(x)[start as int] == s[start as int]);
        lemma_find_from_push(s, x, k, start + 1);
    } else {
        assert(s.push(x)[start as int] == x);
        assert(find_from(s.push(x), k, start + 1) is None);
    }
}

/// Adding a record at the end finds it only when nothing before has its key.
proof fn lemma_find_push<V: Keyed>(s: Seq<V>, x: V, k: Seq<char>)
    ensures
        find_key(s.push(x), k) == match find_key(s, k) {
            Some(i) => Some(i),
            None => if x.key() == k {
                Some(s.len() as int)
            } else {
                None
            },
        },
{
    lemma_find_from_push(s, x, k, 0);
}

proof fn lemma_unique_update<V: Keyed>(s: Seq<V>, i: int, x: V)
    requires
        unique_keys(s),
        0 <= i < s.len(),
        x.key() == s[i].key(),
    ensures
        unique_keys(s.update(i, x)),
{
    let t = s.update(i, x);
    assert forall|a: int, b: int|
        0 <= a < t.len() && 0 <= b < t.len() && a != b implies (#[trigger] t[a]).key() != (
        #[trigger] t[b]).key() by {
        assert(t[a].key() == s[a].key());
        assert(t[b].key() == s[b].key());
    }
}

proof fn lemma_unique_push<V: Keyed>(s: Seq<V>, x: V)
    requires
        unique_keys(s),
        !has_key(s, x.key()),
    ensures
        unique_keys(s.push(x)),
{
    let t = s.push(x);
    assert forall|a: int, b: int|
        0 <= a < t.len() && 0 <= b < t.len() && a != b implies (#[trigger] t[a]).key() != (
        #[trigger] t[b]).key() by {
        if a < s.len() && b < s.len() {
            assert(t[a] == s[a] && t[b] == s[b]);
        } else if a < s.len() {
            assert(t[a] == s[a]);
        } else if b < s.len() {
            assert(t[b] == s[b]);
        }
    }
}

// ── Fresh ids ───────────────────────────────────────────────────────

/// The id the store hands out next belongs to no topic and no question.
pub proof fn law_fresh_id_is_new(db: DbView)
    requires
        db.wf(),
    ensures
        !has_key(db.topics, db.fresh_id()),
        !has_key(db.questions, db.fresh_id()),
{
    assert forall|i: int| 0 <= i < db.topics.len() implies (#[trigger] db.topics[i]).key() != db.fresh_id() by {
        assert(issued(db.topics[i].id, db.next_id));
        let k = choose|k: nat| 1 <= k <= db.next_id && db.topics[i].id == #[trigger] decimal(k);
        if db.topics[i].id == db.fresh_id() {
            lemma_decimal_injective(k, db.next_id + 1);
        }
    }
    assert forall|i: int| 0 <= i < db.questions.len() implies (#[trigger] db.questions[i]).key()
        != db.fresh_id() by {
        assert(issued(db.questions[i].id, db.next_id));
        let k = choose|k: nat| 1 <= k <= db.next_id && db.questions[i].id == #[trigger] decimal(k);
        if db.questions[i].id == db.fresh_id() {
            lemma_decimal_injective(k, db.next_id + 1);
        }
    }
}

proof fn lemma_issued_grows(id: Seq<char>, n: nat)
    requires
        issued(id, n),
    ensures
        issued(id, n + 1),
{
    let k = choose|k: nat| 1 <= k <= n && id == #[trigger] decimal(k);
    assert(1 <= k <= n + 1 && id == decimal(k));
}

/// Creating a topic keeps the store well formed.
pub proof fn law_create_topic_wf(db: DbView, title: Seq<char>)
    requires
        db.wf(),
    ensures
        db.create_topic(title).wf(),
{
    law_fresh_id_is_new(db);
    let d = db.create_topic(title);
    let t = TopicView { id: db.fresh_id(), title };
    assert forall|i: int| 0 <= i < d.topics.len() implies issued(#[trigger] d.topics[i].id, d.next_id) by {
        if i < db.topics.len() {
            assert(d.topics[i] == db.topics[i]);
            lemma_issued_grows(db.topics[i].id, db.next_id);
        } else {
            assert(d.topics[i] == t);
            assert(d.topics[i].id == decimal(db.next_id + 1));
        }
    }
    assert forall|i: int| 0 <= i < d.questions.len() implies issued(
        #[trigger] d.questions[i].id,
        d.next_id,
    ) by {
        lemma_issued_grows(db.questions[i].id, db.next_id);
    }
    lemma_unique_push(db.topics, t);
}

/// Creating a question keeps the store well formed.
pub proof fn law_create_question_wf(
    db: DbView,
    topic_id: Seq<char>,
    text: Seq<char>,
    kind: QuestionKind,
)
    requires
        db.wf(),
    ensures
        db.create_question(topic_id, text, kind).wf(),
{
    law_fresh_id_is_new(db);
    let d = db.create_question(topic_id, text, kind);
    let q = db.new_question(topic_id, text, kind);
    assert forall|i: int| 0 <= i < d.topics.len() implies issued(#[trigger] d.topics[i].id, d.next_id) by {
        lemma_issued_grows(db.topics[i].id, db.next_id);
    }
    assert forall|i: int| 0 <= i < d.questions.len() implies issued(
        #[trigger] d.questions[i].id,
        d.next_id,
    ) by {
        if i < db.questions.len() {
            assert(d.questions[i] == db.questions[i]);
            lemma_issued_grows(db.questions[i].id, db.next_id);
        } else {
            assert(d.questions[i] == q);
            assert(d.questions[i].id == decimal(db.next_id + 1));
        }
    }
    lemma_unique_push(db.questions, q);
    assert forall|i: int| 0 <= i < d.questions.len() implies unique_keys(
        (#[trigger] d.questions[i]).votes,
    ) && unique_keys(d.questions[i].open_answers) by {
        if i < db.questions.len() {
            assert(d.questions[i] == db.questions[i]);
        } else {
            assert(d.questions[i] == q);
        }
    }
}

/// After a topic is created, looking its id up finds it, with its title
/// and no questions yet.
pub proof fn law_create_topic_then_get(db: DbView, title: Seq<char>)
    requires
        db.wf(),
    ensures
        ({
            let d = db.create_topic(title);
            &&& find_key(d.topics, db.fresh_id()) == Some(db.topics.len() as int)
            &&& d.topics[db.topics.len() as int].title == title
            &&& d.question_count(db.fresh_id()) == db.question_count(db.fresh_id())
        }),
{
    law_fresh_id_is_new(db);
    let d = db.create_topic(title);
    lemma_find_push(db.topics, TopicView { id: db.fresh_id(), title }, db.fresh_id());
    lemma_find_key(db.topics, db.fresh_id());
}

/// After a question is created, looking its id up finds it as created.
pub proof fn law_create_question_then_get(
    db: DbView,
    topic_id: Seq<char>,
    text: Seq<char>,
    kind: QuestionKind,
)
    requires
        db.wf(),
    ensures
        ({
            let d = db.create_question(topic_id, text, kind);
            &&& find_key(d.questions, db.fresh_id()) == Some(db.questions.len() as int)
            &&& d.questions[db.questions.len() as int] == db.new_question(topic_id, text, kind)
        }),
{
    law_fresh_id_is_new(db);
    lemma_find_push(db.questions, db.new_question(topic_id, text, kind), db.fresh_id());
    lemma_find_key(db.questions, db.fresh_id());
}

proof fn lemma_questions_of_topic_push(qs: Seq<QuestionView>, q: QuestionView, t: Seq<char>)
    ensures
        questions_of_topic(qs.push(q), t) == if q.topic_id == t {
            questions_of_topic(qs, t).push(q)
        } else {
            questions_of_topic(qs, t)
        },
{
    assert(qs.push(q).drop_last() =~= qs);
}

/// Creating a question of topic `t` adds one to the count of `t` and
/// leaves the counts of the other topics as they were.
pub proof fn law_create_question_count(
    db: DbView,
    topic_id: Seq<char>,
    text: Seq<char>,
    kind: QuestionKind,
    t: Seq<char>,
)
    ensures
        db.create_question(topic_id, text, kind).question_count(t) == if t == topic_id {
            db.question_count(t) + 1
        } else {
            db.question_count(t)
        },
{
    lemma_questions_of_topic_push(db.questions, db.new_question(topic_id, text, kind), t);
}

/// Creating a topic leaves every question count as it was.
pub proof fn law_create_topic_keeps_counts(db: DbView, title: Seq<char>, t: Seq<char>)
    ensures
        db.create_topic(title).question_count(t) == db.question_count(t),
{
}

// ── Changes to one question ─────────────────────────────────────────

/// A change that keeps a question's id keeps the store well formed, when
/// the changed question still has no user twice among its votes and open
/// answers.
proof fn lemma_change_question_wf(
    db: DbView,
    qid: Seq<char>,
    f: spec_fn(QuestionView) -> QuestionView,
)
    requires
        db.wf(),
        forall|q: QuestionView|
            #![trigger f(q)]
            f(q).id == q.id && (unique_keys(q.votes) ==> unique_keys(f(q).votes)) && (unique_keys(
                q.open_answers,
            ) ==> unique_keys(f(q).open_answers)),
    ensures
        db.change_question(qid, f).0.wf(),
{
    lemma_find_key(db.questions, qid);
    match find_key(db.questions, qid) {
        None => {},
        Some(i) => {
            let q2 = f(db.questions[i]);
            let d = db.with_question(i, q2);
            assert(q2.id == db.questions[i].id);
            assert forall|j: int| 0 <= j < d.questions.len() implies issued(
                #[trigger] d.questions[j].id,
                d.next_id,
            ) by {
                if j == i {
                    assert(issued(db.questions[i].id, db.next_id));
                } else {
                    assert(issued(db.questions[j].id, db.next_id));
                }
            }
            lemma_unique_update(db.questions, i, q2);
            assert forall|j: int| 0 <= j < d.questions.len() implies unique_keys(
                (#[trigger] d.questions[j]).votes,
            ) && unique_keys(d.questions[j].open_answers) by {
                if j == i {
                    assert(unique_keys(db.questions[i].votes));
                    assert(unique_keys(db.questions[i].open_answers));
                } else {
                    assert(unique_keys(db.questions[j].votes));
                }
            }
        },
    }
}

/// Storing a vote keeps a user to at most one vote per question.
proof fn lemma_cast_vote_unique(q: QuestionView, user_name: Seq<char>, x: u64, y: u64)
    requires
        unique_keys(q.votes),
    ensures
        unique_keys(q.cast_vote(user_name, x, y).votes),
{
    lemma_find_key(q.votes, user_name);
    match find_key(q.votes, user_name) {
        Some(i) => {
            lemma_unique_update(q.votes, i, q.cast_vote(user_name, x, y).votes[i]);
        },
        None => {
            lemma_unique_push(q.votes, q.cast_vote(user_name, x, y).votes.last());
            assert(q.votes.push(q.cast_vote(user_name, x, y).votes.last()) =~= q.cast_vote(
                user_name,
                x,
                y,
            ).votes);
        },
    }
}

/// Storing an open answer keeps a user to at most one answer per question.
proof fn lemma_open_answer_unique(q: QuestionView, user_name: Seq<char>, text: Seq<char>)
    requires
        unique_keys(q.open_answers),
    ensures
        unique_keys(q.put_open_answer(user_name, text).open_answers),
{
    lemma_find_key(q.open_answers, user_name);
    let r = q.put_open_answer(user_name, text);
    match find_key(q.open_answers, user_name) {
        Some(i) => {
            lemma_unique_update(q.open_answers, i, r.open_answers[i]);
        },
        None => {
            lemma_unique_push(q.open_answers, r.open_answers.last());
            assert(q.open_answers.push(r.open_answers.last()) =~= r.open_answers);
        },
    }
}

/// After a change to a question that keeps its id, looking the question up
/// gives back the question the change answered with.
proof fn lemma_change_then_get(db: DbView, qid: Seq<char>, f: spec_fn(QuestionView) -> QuestionView)
    requires
        forall|q: QuestionView| #![trigger f(q)] f(q).id == q.id,
    ensures
        match db.change_question(qid, f).1 {
            None => !has_key(db.questions, qid) && db.change_question(qid, f).0 == db,
            Some(q) => find_key(db.change_question(qid, f).0.questions, qid) == find_key(
                db.questions,
                qid,
            ) && db.change_question(qid, f).0.questions[find_key(db.questions, qid)->0] == q,
        },
{
    lemma_find_key(db.questions, qid);
    match find_key(db.questions, qid) {
        None => {},
        Some(i) => {
            let q2 = f(db.questions[i]);
            lemma_find_update_same_key(db.questions, i, q2, qid);
        },
    }
}

/// What a change to a question answers with is what a later read of that
/// question gives back; and a change to a question that does not exist
/// answers with nothing and leaves the store as it was.
pub proof fn law_question_changes_read_back(
    db: DbView,
    qid: Seq<char>,
    index: nat,
    text: Seq<char>,
    user_name: Seq<char>,
    x: u64,
    y: u64,
    x_axis: Option<(Seq<char>, Seq<char>)>,
    y_axis: Option<(Seq<char>, Seq<char>)>,
)
    ensures
        ({
            let changes = seq![
                db.add_answer(qid, index, text),
                db.edit_answer(qid, index, text),
                db.delete_answer(qid, index),
                db.cast_vote(qid, user_name, x, y),
                db.add_open_answer(qid, user_name, text),
                db.set_axes(qid, x_axis, y_axis),
            ];
            forall|k: int|
                0 <= k < changes.len() ==> match #[trigger] changes[k] {
                    (d, None) => !has_key(db.questions, qid) && d == db,
                    (d, Some(q)) => find_key(d.questions, qid) == find_key(db.questions, qid)
                        && d.questions[find_key(db.questions, qid)->0] == q,
                }
        }),
{
    lemma_change_then_get(db, qid, |q: QuestionView| q.insert_answer(index, text));
    lemma_change_then_get(db, qid, |q: QuestionView| q.edit_answer(index, text));
    lemma_change_then_get(db, qid, |q: QuestionView| q.delete_answer(index));
    lemma_change_then_get(db, qid, |q: QuestionView| q.cast_vote(user_name, x, y));
    lemma_change_then_get(db, qid, |q: QuestionView| q.put_open_answer(user_name, text));
    lemma_change_then_get(db, qid, |q: QuestionView| q.set_axes(x_axis, y_axis));
    let changes = seq![
        db.add_answer(qid, index, text),
        db.edit_answer(qid, index, text),
        db.delete_answer(qid, index),
        db.cast_vote(qid, user_name, x, y),
        db.add_open_answer(qid, user_name, text),
        db.set_axes(qid, x_axis, y_axis),
    ];
    assert forall|k: int| 0 <= k < changes.len() implies match #[trigger] changes[k] {
        (d, None) => !has_key(db.questions, qid) && d == db,
        (d, Some(q)) => find_key(d.questions, qid) == find_key(db.questions, qid)
            && d.questions[find_key(db.questions, qid)->0] == q,
    } by {
        if k == 0 {
        } else if k == 1 {
        } else if k == 2 {
        } else if k == 3 {
        } else if k == 4 {
        } else {
        }
    }
}

/// Every change to the answers, votes, open answers or axes of a question
/// keeps the store well formed.
pub proof fn law_question_changes_wf(
    db: DbView,
    qid: Seq<char>,
    index: nat,
    text: Seq<char>,
    user_name: Seq<char>,
    x: u64,
    y: u64,
    x_axis: Option<(Seq<char>, Seq<char>)>,
    y_axis: Option<(Seq<char>, Seq<char>)>,
)
    requires
        db.wf(),
    ensures
        db.add_answer(qid, index, text).0.wf(),
        db.edit_answer(qid, index, text).0.wf(),
        db.delete_answer(qid, index).0.wf(),
        db.cast_vote(qid, user_name, x, y).0.wf(),
        db.add_open_answer(qid, user_name, text).0.wf(),
        db.set_axes(qid, x_axis, y_axis).0.wf(),
{
    lemma_change_question_wf(db, qid, |q: QuestionView| q.insert_answer(index, text));
    lemma_change_question_wf(db, qid, |q: QuestionView| q.edit_answer(index, text));
    lemma_change_question_wf(db, qid, |q: QuestionView| q.delete_answer(index));
    assert forall|q: QuestionView| unique_keys(q.votes) implies unique_keys(
        #[trigger] q.cast_vote(user_name, x, y).votes,
    ) by {
        lemma_cast_vote_unique(q, user_name, x, y);
    }
    lemma_change_question_wf(db, qid, |q: QuestionView| q.cast_vote(user_name, x, y));
    assert forall|q: QuestionView| unique_keys(q.open_answers) implies unique_keys(
        #[trigger] q.put_open_answer(user_name, text).open_answers,
    ) by {
        lemma_open_answer_unique(q, user_name, text);
    }
    lemma_change_question_wf(db, qid, |q: QuestionView| q.put_open_answer(user_name, text));
    lemma_change_question_wf(db, qid, |q: QuestionView| q.set_axes(x_axis, y_axis));
}

/// Deleting the answer just inserted, at the position it was inserted
/// at, gives back the store and the question as they were.
pub proof fn law_add_then_delete_answer(db: DbView, qid: Seq<char>, index: nat, text: Seq<char>)
    requires
        has_key(db.questions, qid),
    ensures
        ({
            let i = find_key(db.questions, qid)->0;
            let at = min_nat(index, db.questions[i].answers.len());
            let d1 = db.add_answer(qid, index, text).0;
            &&& d1.delete_answer(qid, at).0 == db
            &&& d1.delete_answer(qid, at).1 == Some(db.questions[i])
        }),
{
    lemma_find_key(db.questions, qid);
    let i = find_key(db.questions, qid)->0;
    let q = db.questions[i];
    let at = min_nat(index, q.answers.len());
    let q1 = q.insert_answer(index, text);
    let d1 = db.with_question(i, q1);
    assert(db.add_answer(qid, index, text).0 == d1);
    lemma_find_update_same_key(db.questions, i, q1, qid);
    assert(d1.questions[i] == q1);
    let q2 = q1.delete_answer(at);
    assert(q1.answers == q.answers.insert(at as int, text));
    assert(q2.answers =~= q.answers);
    assert(q2 == q);
    assert(d1.with_question(i, q2).questions =~= db.questions);
}

/// Deleting an answer and inserting its text back at the same position
/// gives back the store and the question as they were.
pub proof fn law_delete_then_add_answer(db: DbView, qid: Seq<char>, index: nat)
    requires
        has_key(db.questions, qid),
        index < db.questions[find_key(db.questions, qid)->0].answers.len(),
    ensures
        ({
            let i = find_key(db.questions, qid)->0;
            let text = db.questions[i].answers[index as int];
            let d1 = db.delete_answer(qid, index).0;
            &&& d1.add_answer(qid, index, text).0 == db
            &&& d1.add_answer(qid, index, text).1 == Some(db.questions[i])
        }),
{
    lemma_find_key(db.questions, qid);
    let i = find_key(db.questions, qid)->0;
    let q = db.questions[i];
    let text = q.answers[index as int];
    let q1 = q.delete_answer(index);
    let d1 = db.with_question(i, q1);
    lemma_find_update_same_key(db.questions, i, q1, qid);
    assert(d1.questions[i] == q1);
    let q2 = q1.insert_answer(index, text);
    assert(q2.answers =~= q.answers);
    assert(q2 == q);
    assert(d1.with_question(i, q2).questions =~= db.questions);
}

/// Editing an answer sets that answer's text and touches no other answer;
/// an index past the end changes nothing.
pub proof fn law_edit_answer_reads_back(db: DbView, qid: Seq<char>, index: nat, text: Seq<char>)
    requires
        has_key(db.questions, qid),
    ensures
        ({
            let i = find_key(db.questions, qid)->0;
            let q = db.questions[i];
            let r = db.edit_answer(qid, index, text).1->0;
            &&& r.answers.len() == q.answers.len()
            &&& forall|j: int|
                0 <= j < q.answers.len() ==> #[trigger] r.answers[j] == if j == index {
                    text
                } else {
                    q.answers[j]
                }
        }),
{
    lemma_find_key(db.questions, qid);
}

/// Storing the same vote twice is the same as storing it once.
pub proof fn law_cast_vote_idempotent(db: DbView, qid: Seq<char>, user_name: Seq<char>, x: u64, y: u64)
    ensures
        db.cast_vote(qid, user_name, x, y).0.cast_vote(qid, user_name, x, y)
            == db.cast_vote(qid, user_name, x, y),
{
    lemma_find_key(db.questions, qid);
    match find_key(db.questions, qid) {
        None => {},
        Some(i) => {
            let q = db.questions[i];
            let q1 = q.cast_vote(user_name, x, y);
            let d1 = db.with_question(i, q1);
            lemma_find_update_same_key(db.questions, i, q1, qid);
            assert(d1.questions[i] == q1);
            lemma_find_key(q.votes, user_name);
            match find_key(q.votes, user_name) {
                Some(j) => {
                    let v = VoteView { user_name: q.votes[j].user_name, x, y };
                    lemma_find_update_same_key(q.votes, j, v, user_name);
                    assert(q1.votes == q.votes.update(j, v));
                    assert(q1.cast_vote(user_name, x, y).votes =~= q1.votes);
                },
                None => {
                    let v = VoteView { user_name, x, y };
                    lemma_find_push(q.votes, v, user_name);
                    assert(q1.votes == q.votes.push(v));
                    assert(q1.cast_vote(user_name, x, y).votes =~= q1.votes);
                },
            }
            assert(q1.cast_vote(user_name, x, y) == q1);
            assert(d1.with_question(i, q1).questions =~= d1.questions);
        },
    }
}

/// After a user votes on a question whose votes are one per user, that
/// user has exactly one vote there, at the position given, and every
/// other user's vote is as it was.
pub proof fn law_cast_vote_one_per_user(q: QuestionView, user_name: Seq<char>, x: u64, y: u64)
    requires
        unique_keys(q.votes),
    ensures
        ({
            let r = q.cast_vote(user_name, x, y);
            &&& unique_keys(r.votes)
            &&& key_count(r.votes, user_name) == 1
            &&& r.votes[find_key(r.votes, user_name)->0].x == x
            &&& r.votes[find_key(r.votes, user_name)->0].y == y
            &&& forall|j: int|
                0 <= j < q.votes.len() && q.votes[j].user_name != user_name ==> #[trigger] r.votes[j]
                    == q.votes[j]
        }),
{
    lemma_cast_vote_unique(q, user_name, x, y);
    let r = q.cast_vote(user_name, x, y);
    lemma_find_key(q.votes, user_name);
    match find_key(q.votes, user_name) {
        Some(j) => {
            lemma_find_update_same_key(q.votes, j, r.votes[j], user_name);
            assert(r.votes[j].user_name == user_name);
        },
        None => {
            lemma_find_push(q.votes, r.votes.last(), user_name);
            assert(q.votes.push(r.votes.last()) =~= r.votes);
            assert(r.votes[q.votes.len() as int].user_name == user_name);
        },
    }
    lemma_key_count_unique(r.votes, user_name);
    lemma_find_key(r.votes, user_name);
}

/// Storing the same open answer twice is the same as storing it once.
pub proof fn law_add_open_answer_idempotent(
    db: DbView,
    qid: Seq<char>,
    user_name: Seq<char>,
    text: Seq<char>,
)
    ensures
        db.add_open_answer(qid, user_name, text).0.add_open_answer(qid, user_name, text)
            == db.add_open_answer(qid, user_name, text),
{
    lemma_find_key(db.questions, qid);
    match find_key(db.questions, qid) {
        None => {},
        Some(i) => {
            let q = db.questions[i];
            let q1 = q.put_open_answer(user_name, text);
            let d1 = db.with_question(i, q1);
            lemma_find_update_same_key(db.questions, i, q1, qid);
            assert(d1.questions[i] == q1);
            lemma_find_key(q.open_answers, user_name);
            match find_key(q.open_answers, user_name) {
                Some(j) => {
                    lemma_find_update_same_key(q.open_answers, j, q1.open_answers[j], user_name);
                    assert(q1.put_open_answer(user_name, text).open_answers =~= q1.open_answers);
                },
                None => {
                    lemma_find_push(q.open_answers, q1.open_answers.last(), user_name);
                    assert(q.open_answers.push(q1.open_answers.last()) =~= q1.open_answers);
                    assert(q1.put_open_answer(user_name, text).open_answers =~= q1.open_answers);
                },
            }
            assert(q1.put_open_answer(user_name, text) == q1);
            assert(d1.with_question(i, q1).questions =~= d1.questions);
        },
    }
}

/// After a user answers an open question whose answers are one per user,
/// that user has exactly one answer there, with the text given.
pub proof fn law_open_answer_one_per_user(q: QuestionView, user_name: Seq<char>, text: Seq<char>)
    requires
        unique_keys(q.open_answers),
    ensures
        ({
            let r = q.put_open_answer(user_name, text);
            &&& unique_keys(r.open_answers)
            &&& key_count(r.open_answers, user_name) == 1
            &&& r.open_answers[find_key(r.open_answers, user_name)->0].text == text
        }),
{
    lemma_open_answer_unique(q, user_name, text);
    let r = q.put_open_answer(user_name, text);
    lemma_find_key(q.open_answers, user_name);
    match find_key(q.open_answers, user_name) {
        Some(j) => {
            lemma_find_update_same_key(q.open_answers, j, r.open_answers[j], user_name);
        },
        None => {
            lemma_find_push(q.open_answers, r.open_answers.last(), user_name);
            assert(q.open_answers.push(r.open_answers.last()) =~= r.open_answers);
        },
    }
    lemma_key_count_unique(r.open_answers, user_name);
    lemma_find_key(r.open_answers, user_name);
}

/// Storing a user twice is the same as storing them once; users stay one
/// per name, and the stored user has the shape and color given.
pub proof fn law_upsert_user(db: DbView, u: UserView)
    ensures
        db.upsert_user(u).upsert_user(u) == db.upsert_user(u),
        unique_keys(db.users) ==> unique_keys(db.upsert_user(u).users),
        has_key(db.upsert_user(u).users, u.name),
        ({
            let us = db.upsert_user(u).users;
            let i = find_key(us, u.name)->0;
            us[i].shape == u.shape && us[i].color == u.color
        }),
{
    let us = db.users;
    let r = upsert_user(us, u);
    lemma_find_key(us, u.name);
    match find_key(us, u.name) {
        Some(i) => {
            lemma_find_update_same_key(us, i, r[i], u.name);
            assert(upsert_user(r, u) =~= r);
            if unique_keys(us) {
                lemma_unique_update(us, i, r[i]);
            }
            assert(r[i].name == u.name);
        },
        None => {
            lemma_find_push(us, u, u.name);
            assert(upsert_user(r, u) =~= r);
            if unique_keys(us) {
                lemma_unique_push(us, u);
            }
            assert(r[us.len() as int].name == u.name);
        },
    }
    lemma_find_key(r, u.name);
}

/// Storing a user keeps the store well formed.
pub proof fn law_upsert_user_wf(db: DbView, u: UserView)
    requires
        db.wf(),
    ensures
        db.upsert_user(u).wf(),
{
    law_upsert_user(db, u);
}

/// A vote moved live by another user changes the question a client shows
/// exactly as storing that vote changes the question on the server, so a
/// client that showed the stored question shows the stored result.
pub proof fn law_live_vote_matches_stored(
    db: DbView,
    qid: Seq<char>,
    user_name: Seq<char>,
    x: u64,
    y: u64,
)
    requires
        has_key(db.questions, qid),
    ensures
        db.cast_vote(qid, user_name, x, y).1 == Some(
            db.questions[find_key(db.questions, qid)->0].cast_vote(user_name, x, y),
        ),
        db.cast_vote(qid, user_name, x, y).0.questions[find_key(db.questions, qid)->0]
            == db.questions[find_key(db.questions, qid)->0].cast_vote(user_name, x, y),
{
    lemma_find_key(db.questions, qid);
}

/// The count shown with a topic is the number of questions listed for it.
pub proof fn law_count_matches_listing(db: DbView, t: TopicView)
    ensures
        db.topic_with_count(t).question_count == questions_of_topic(db.questions, t.id).len(),
{
}

} // verus!
