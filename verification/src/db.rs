//! The board's store and the changes the server makes to it.
use vstd::prelude::*;

use crate::decimal::{decimal, u64_to_decimal};
use crate::keyed::{find_index, find_key, Keyed};
use crate::model::{
    copy_axis, OpenAnswer, OpenAnswerView, Question, QuestionKind, QuestionView, Topic,
    TopicView, TopicWithCount, TopicWithCountView, User, UserView, Vote, VoteView, copy_users,
};

verus! {

/// Everything the server keeps.
#[derive(Clone, Debug)]
pub struct Db {
    pub topics: Vec<Topic>,
    pub questions: Vec<Question>,
    pub users: Vec<User>,
    /// The last id handed out; the next is one more.
    pub next_id: u64,
}

pub struct DbView {
    pub topics: Seq<TopicView>,
    pub questions: Seq<QuestionView>,
    pub users: Seq<UserView>,
    pub next_id: nat,
}

impl View for Db {
    type V = DbView;

    open spec fn view(&self) -> DbView {
        DbView {
            topics: self.topics.deep_view(),
            questions: self.questions.deep_view(),
            users: self.users.deep_view(),
            next_id: self.next_id as nat,
        }
    }
}

// ── Changes to one question ─────────────────────────────────────────

/// `a` when it is at most `b`, else `b`.
pub open spec fn min_nat(a: nat, b: nat) -> nat {
    if a <= b {
        a
    } else {
        b
    }
}

impl QuestionView {
    /// Inserts an answer; a position past the end appends.
    pub open spec fn insert_answer(self, index: nat, text: Seq<char>) -> QuestionView {
        QuestionView {
            answers: self.answers.insert(min_nat(index, self.answers.len()) as int, text),
            ..self
        }
    }

    /// Replaces the text of an answer; a position past the end changes nothing.
    pub open spec fn edit_answer(self, index: nat, text: Seq<char>) -> QuestionView {
        if index < self.answers.len() {
            QuestionView { answers: self.answers.update(index as int, text), ..self }
        } else {
            self
        }
    }

    /// Removes an answer; a position past the end changes nothing.
    pub open spec fn delete_answer(self, index: nat) -> QuestionView {
        if index < self.answers.len() {
            QuestionView { answers: self.answers.remove(index as int), ..self }
        } else {
            self
        }
    }

    /// Moves the first vote of `user_name` to `(x, y)`, or adds a vote there.
    pub open spec fn cast_vote(self, user_name: Seq<char>, x: u64, y: u64) -> QuestionView {
        match find_key(self.votes, user_name) {
            Some(i) => QuestionView {
                votes: self.votes.update(
                    i,
                    VoteView { user_name: self.votes[i].user_name, x, y },
                ),
                ..self
            },
            None => QuestionView {
                votes: self.votes.push(VoteView { user_name, x, y }),
                ..self
            },
        }
    }

    /// Replaces the text of the first open answer of `user_name`, or adds one.
    pub open spec fn put_open_answer(self, user_name: Seq<char>, text: Seq<char>) -> QuestionView {
        match find_key(self.open_answers, user_name) {
            Some(i) => QuestionView {
                open_answers: self.open_answers.update(
                    i,
                    OpenAnswerView { user_name: self.open_answers[i].user_name, text },
                ),
                ..self
            },
            None => QuestionView {
                open_answers: self.open_answers.push(OpenAnswerView { user_name, text }),
                ..self
            },
        }
    }

    /// Sets both projection axes.
    pub open spec fn set_axes(
        self,
        x_axis: Option<(Seq<char>, Seq<char>)>,
        y_axis: Option<(Seq<char>, Seq<char>)>,
    ) -> QuestionView {
        QuestionView { x_axis, y_axis, ..self }
    }
}

// ── The store ───────────────────────────────────────────────────────

/// The questions of `qs` that belong to topic `t`, in order.
pub open spec fn questions_of_topic(qs: Seq<QuestionView>, t: Seq<char>) -> Seq<QuestionView>
    decreases qs.len(),
{
    if qs.len() == 0 {
        Seq::empty()
    } else if qs.last().topic_id == t {
        questions_of_topic(qs.drop_last(), t).push(qs.last())
    } else {
        questions_of_topic(qs.drop_last(), t)
    }
}

/// The users of `us` after `u` has been stored: the first user of that
/// name takes its shape and color, or `u` is added at the end.
pub open spec fn upsert_user(us: Seq<UserView>, u: UserView) -> Seq<UserView> {
    match find_key(us, u.name) {
        Some(i) => us.update(i, UserView { name: us[i].name, shape: u.shape, color: u.color }),
        None => us.push(u),
    }
}

impl DbView {
    /// The number of questions of topic `t`.
    pub open spec fn question_count(self, t: Seq<char>) -> nat {
        questions_of_topic(self.questions, t).len()
    }

    /// A topic together with the number of its questions.
    pub open spec fn topic_with_count(self, t: TopicView) -> TopicWithCountView {
        TopicWithCountView { id: t.id, title: t.title, question_count: self.question_count(t.id) }
    }

    /// The id that the next record will get.
    pub open spec fn fresh_id(self) -> Seq<char> {
        decimal(self.next_id + 1)
    }

    /// The store after a topic titled `title` has been created.
    pub open spec fn create_topic(self, title: Seq<char>) -> DbView {
        DbView {
            topics: self.topics.push(TopicView { id: self.fresh_id(), title }),
            next_id: self.next_id + 1,
            ..self
        }
    }

    /// The question a new question is stored as.
    pub open spec fn new_question(
        self,
        topic_id: Seq<char>,
        text: Seq<char>,
        kind: QuestionKind,
    ) -> QuestionView {
        QuestionView {
            id: self.fresh_id(),
            topic_id,
            text,
            kind,
            answers: Seq::empty(),
            votes: Seq::empty(),
            open_answers: Seq::empty(),
            x_axis: None,
            y_axis: None,
        }
    }

    /// The store after a question has been created.
    pub open spec fn create_question(
        self,
        topic_id: Seq<char>,
        text: Seq<char>,
        kind: QuestionKind,
    ) -> DbView {
        DbView {
            questions: self.questions.push(self.new_question(topic_id, text, kind)),
            next_id: self.next_id + 1,
            ..self
        }
    }

    /// The store with question `i` replaced by `q`.
    pub open spec fn with_question(self, i: int, q: QuestionView) -> DbView {
        DbView { questions: self.questions.update(i, q), ..self }
    }

    /// The store after `f` is applied to the first question with id
    /// `qid`, and that question as it then is; the store unchanged and
    /// nothing when there is no such question.
    pub open spec fn change_question(
        self,
        qid: Seq<char>,
        new_q: spec_fn(QuestionView) -> QuestionView,
    ) -> (DbView, Option<QuestionView>) {
        match find_key(self.questions, qid) {
            Some(i) => (self.with_question(i, new_q(self.questions[i])), Some(new_q(self.questions[i]))),
            None => (self, None),
        }
    }

    pub open spec fn add_answer(self, qid: Seq<char>, index: nat, text: Seq<char>) -> (
        DbView,
        Option<QuestionView>,
    ) {
        self.change_question(qid, |q: QuestionView| q.insert_answer(index, text))
    }

    pub open spec fn edit_answer(self, qid: Seq<char>, index: nat, text: Seq<char>) -> (
        DbView,
        Option<QuestionView>,
    ) {
        self.change_question(qid, |q: QuestionView| q.edit_answer(index, text))
    }

    pub open spec fn delete_answer(self, qid: Seq<char>, index: nat) -> (
        DbView,
        Option<QuestionView>,
    ) {
        self.change_question(qid, |q: QuestionView| q.delete_answer(index))
    }

    pub open spec fn cast_vote(self, qid: Seq<char>, user_name: Seq<char>, x: u64, y: u64) -> (
        DbView,
        Option<QuestionView>,
    ) {
        self.change_question(qid, |q: QuestionView| q.cast_vote(user_name, x, y))
    }

    pub open spec fn add_open_answer(
        self,
        qid: Seq<char>,
        user_name: Seq<char>,
        text: Seq<char>,
    ) -> (DbView, Option<QuestionView>) {
        self.change_question(qid, |q: QuestionView| q.put_open_answer(user_name, text))
    }

    pub open spec fn set_axes(
        self,
        qid: Seq<char>,
        x_axis: Option<(Seq<char>, Seq<char>)>,
        y_axis: Option<(Seq<char>, Seq<char>)>,
    ) -> (DbView, Option<QuestionView>) {
        self.change_question(qid, |q: QuestionView| q.set_axes(x_axis, y_axis))
    }

    /// The store after user `u` has been stored.
    pub open spec fn upsert_user(self, u: UserView) -> DbView {
        DbView { users: upsert_user(self.users, u), ..self }
    }
}

/// `v` with element `i` replaced by `x`.
fn replace_at<T>(v: &mut Vec<T>, i: usize, x: T)
    requires
        i < old(v).len(),
    ensures
        final(v)@ == old(v)@.update(i as int, x),
{
    v.remove(i);
    v.insert(i, x);
    assert(v@ =~= old(v)@.update(i as int, x));
}

impl Db {
    /// An empty store.
    pub fn new() -> (db: Db)
        ensures
            db@.topics.len() == 0,
            db@.questions.len() == 0,
            db@.users.len() == 0,
            db@.next_id == 0,
            db@.wf(),
    {
        Db { topics: Vec::new(), questions: Vec::new(), users: Vec::new(), next_id: 0 }
    }

    /// Hands out the next id: one more than the last, in decimal.
    pub fn new_id(&mut self) -> (id: String)
        requires
            old(self).next_id < u64::MAX,
        ensures
            final(self).next_id == old(self).next_id + 1,
            id@ == decimal(final(self).next_id as nat),
            final(self).topics == old(self).topics,
            final(self).questions == old(self).questions,
            final(self).users == old(self).users,
    {
        self.next_id = self.next_id + 1;
        u64_to_decimal(self.next_id)
    }

    /// The number of questions of topic `topic_id`.
    pub fn question_count(&self, topic_id: &String) -> (n: usize)
        ensures
            n == self@.question_count(topic_id@),
    {
        let ghost qs = self@.questions;
        let mut n: usize = 0;
        let mut i: usize = 0;
        while i < self.questions.len()
            invariant
                i <= self.questions.len(),
                qs == self.questions.deep_view(),
                n == questions_of_topic(qs.take(i as int), topic_id@).len(),
                n <= i,
            decreases self.questions.len() - i,
        {
            assert(qs.take(i + 1).drop_last() =~= qs.take(i as int));
            if self.questions[i].topic_id == *topic_id {
                n = n + 1;
            }
            i = i + 1;
        }
        assert(qs.take(i as int) =~= qs);
        n
    }

    /// A topic together with the number of its questions.
    pub fn topic_with_count(&self, t: &Topic) -> (r: TopicWithCount)
        ensures
            r@ == self@.topic_with_count(t@),
    {
        TopicWithCount {
            id: t.id.clone(),
            title: t.title.clone(),
            question_count: self.question_count(&t.id),
        }
    }

    /// All topics, each with the number of its questions.
    pub fn get_topics(&self) -> (r: Vec<TopicWithCount>)
        ensures
            r@.len() == self@.topics.len(),
            forall|i: int|
                0 <= i < r@.len() ==> (#[trigger] r@[i])@ == self@.topic_with_count(
                    self@.topics[i],
                ),
    {
        let mut r: Vec<TopicWithCount> = Vec::new();
        let mut i: usize = 0;
        while i < self.topics.len()
            invariant
                i <= self.topics.len(),
                r@.len() == i,
                forall|j: int|
                    0 <= j < i ==> (#[trigger] r@[j])@ == self@.topic_with_count(
                        self@.topics[j],
                    ),
            decreases self.topics.len() - i,
        {
            let t = self.topic_with_count(&self.topics[i]);
            r.push(t);
            i = i + 1;
        }
        r
    }

    /// The first topic with id `topic_id`, with its question count.
    pub fn get_topic(&self, topic_id: &String) -> (r: Option<TopicWithCount>)
        ensures
            match find_key(self@.topics, topic_id@) {
                None => r is None,
                Some(i) => r is Some && r->0@ == self@.topic_with_count(self@.topics[i]),
            },
    {
        match find_index(&self.topics, topic_id) {
            Some(i) => Some(self.topic_with_count(&self.topics[i])),
            None => None,
        }
    }

    /// Creates a topic with a fresh id.
    pub fn create_topic(&mut self, title: String) -> (r: TopicWithCount)
        requires
            old(self).next_id < u64::MAX,
        ensures
            final(self)@ == old(self)@.create_topic(title@),
            r@ == old(self)@.topic_with_count(TopicView { id: old(self)@.fresh_id(), title: title@ }),
    {
        let id = self.new_id();
        let topic = Topic { id, title };
        let resp = self.topic_with_count(&topic);
        self.topics.push(topic);
        assert(self@.topics =~= old(self)@.topics.push(TopicView { id: old(self)@.fresh_id(), title: title@ }));
        resp
    }

    /// The questions of topic `topic_id`, in stored order.
    pub fn get_questions(&self, topic_id: &String) -> (r: Vec<Question>)
        ensures
            r.deep_view() == questions_of_topic(self@.questions, topic_id@),
    {
        let ghost qs = self@.questions;
        let mut r: Vec<Question> = Vec::new();
        let mut i: usize = 0;
        while i < self.questions.len()
            invariant
                i <= self.questions.len(),
                qs == self.questions.deep_view(),
                r.deep_view() == questions_of_topic(qs.take(i as int), topic_id@),
            decreases self.questions.len() - i,
        {
            assert(qs.take(i + 1).drop_last() =~= qs.take(i as int));
            if self.questions[i].topic_id == *topic_id {
                let q = self.questions[i].copy();
                r.push(q);
                assert(r.deep_view() =~= questions_of_topic(qs.take(i + 1), topic_id@));
            }
            i = i + 1;
        }
        assert(qs.take(i as int) =~= qs);
        r
    }

    /// The first question with id `question_id`.
    pub fn get_question(&self, question_id: &String) -> (r: Option<Question>)
        ensures
            match find_key(self@.questions, question_id@) {
                None => r is None,
                Some(i) => r is Some && r->0@ == self@.questions[i],
            },
    {
        match find_index(&self.questions, question_id) {
            Some(i) => Some(self.questions[i].copy()),
            None => None,
        }
    }

    /// Creates a question of topic `topic_id` with a fresh id and no answers.
    pub fn create_question(&mut self, topic_id: String, text: String, kind: QuestionKind) -> (r:
        Question)
        requires
            old(self).next_id < u64::MAX,
        ensures
            final(self)@ == old(self)@.create_question(topic_id@, text@, kind),
            r@ == old(self)@.new_question(topic_id@, text@, kind),
    {
        let id = self.new_id();
        let question = Question {
            id,
            topic_id,
            text,
            kind,
            answers: Vec::new(),
            votes: Vec::new(),
            open_answers: Vec::new(),
            x_axis: None,
            y_axis: None,
        };
        let resp = question.copy();
        assert(question@.answers =~= Seq::<Seq<char>>::empty());
        assert(question@.votes =~= Seq::<VoteView>::empty());
        assert(question@.open_answers =~= Seq::<OpenAnswerView>::empty());
        self.questions.push(question);
        assert(self@.questions =~= old(self)@.questions.push(
            old(self)@.new_question(topic_id@, text@, kind),
        ));
        resp
    }

    /// Inserts answer `text` at `index` of the first question with id
    /// `question_id` (at the end when `index` is past it).
    pub fn add_answer(&mut self, question_id: &String, index: usize, text: String) -> (r: Option<
        Question,
    >)
        ensures
            (final(self)@, r.deep_view()) == old(self)@.add_answer(
                question_id@,
                index as nat,
                text@,
            ),
    {
        match find_index(&self.questions, question_id) {
            None => None,
            Some(i) => {
                let mut q = self.questions.remove(i);
                let ghost old_q = q@;
                let at: usize = if index < q.answers.len() {
                    index
                } else {
                    q.answers.len()
                };
                q.answers.insert(at, text);
                assert(q@ == old_q.insert_answer(index as nat, text@)) by {
                    assert(q@.answers =~= old_q.answers.insert(at as int, text@));
                }
                let out = q.copy();
                self.questions.insert(i, q);
                assert(self@.questions =~= old(self)@.questions.update(i as int, out@));
                Some(out)
            },
        }
    }

    /// Replaces answer `index` of the first question with id `question_id`.
    pub fn edit_answer(&mut self, question_id: &String, index: usize, text: String) -> (r: Option<
        Question,
    >)
        ensures
            (final(self)@, r.deep_view()) == old(self)@.edit_answer(
                question_id@,
                index as nat,
                text@,
            ),
    {
        match find_index(&self.questions, question_id) {
            None => None,
            Some(i) => {
                let mut q = self.questions.remove(i);
                let ghost old_q = q@;
                if index < q.answers.len() {
                    replace_at(&mut q.answers, index, text);
                    assert(q@.answers =~= old_q.answers.update(index as int, text@));
                }
                assert(q@ == old_q.edit_answer(index as nat, text@));
                let out = q.copy();
                self.questions.insert(i, q);
                assert(self@.questions =~= old(self)@.questions.update(i as int, out@));
                Some(out)
            },
        }
    }

    /// Removes answer `index` of the first question with id `question_id`.
    pub fn delete_answer(&mut self, question_id: &String, index: usize) -> (r: Option<Question>)
        ensures
            (final(self)@, r.deep_view()) == old(self)@.delete_answer(question_id@, index as nat),
    {
        match find_index(&self.questions, question_id) {
            None => None,
            Some(i) => {
                let mut q = self.questions.remove(i);
                let ghost old_q = q@;
                if index < q.answers.len() {
                    q.answers.remove(index);
                    assert(q@.answers =~= old_q.answers.remove(index as int));
                }
                assert(q@ == old_q.delete_answer(index as nat));
                let out = q.copy();
                self.questions.insert(i, q);
                assert(self@.questions =~= old(self)@.questions.update(i as int, out@));
                Some(out)
            },
        }
    }

    /// Places the vote of `user_name` at `(x, y)` on the first question
    /// with id `question_id`, moving the vote that user already has there.
    pub fn cast_vote(&mut self, question_id: &String, user_name: String, x: u64, y: u64) -> (r:
        Option<Question>)
        ensures
            (final(self)@, r.deep_view()) == old(self)@.cast_vote(question_id@, user_name@, x, y),
    {
        match find_index(&self.questions, question_id) {
            None => None,
            Some(i) => {
                let mut q = self.questions.remove(i);
                let ghost old_q = q@;
                match find_index(&q.votes, &user_name) {
                    Some(j) => {
                        let mut v = q.votes.remove(j);
                        v.x = x;
                        v.y = y;
                        q.votes.insert(j, v);
                        assert(q@.votes =~= old_q.votes.update(
                            j as int,
                            VoteView { user_name: old_q.votes[j as int].user_name, x, y },
                        ));
                    },
                    None => {
                        q.votes.push(Vote { user_name, x, y });
                        assert(q@.votes =~= old_q.votes.push(VoteView { user_name: user_name@, x, y }));
                    },
                }
                assert(q@ == old_q.cast_vote(user_name@, x, y));
                let out = q.copy();
                self.questions.insert(i, q);
                assert(self@.questions =~= old(self)@.questions.update(i as int, out@));
                Some(out)
            },
        }
    }

    /// Stores the free-text answer of `user_name` on the first question
    /// with id `question_id`, replacing the one that user already has there.
    pub fn add_open_answer(&mut self, question_id: &String, user_name: String, text: String) -> (r:
        Option<Question>)
        ensures
            (final(self)@, r.deep_view()) == old(self)@.add_open_answer(
                question_id@,
                user_name@,
                text@,
            ),
    {
        match find_index(&self.questions, question_id) {
            None => None,
            Some(i) => {
                let mut q = self.questions.remove(i);
                let ghost old_q = q@;
                match find_index(&q.open_answers, &user_name) {
                    Some(j) => {
                        let mut a = q.open_answers.remove(j);
                        let ghost t = text@;
                        a.text = text;
                        q.open_answers.insert(j, a);
                        assert(q@.open_answers =~= old_q.open_answers.update(
                            j as int,
                            OpenAnswerView { user_name: old_q.open_answers[j as int].user_name, text: t },
                        ));
                    },
                    None => {
                        let ghost t = text@;
                        let ghost u = user_name@;
                        q.open_answers.push(OpenAnswer { user_name, text });
                        assert(q@.open_answers =~= old_q.open_answers.push(
                            OpenAnswerView { user_name: u, text: t },
                        ));
                    },
                }
                assert(q@ == old_q.put_open_answer(user_name@, text@));
                let out = q.copy();
                self.questions.insert(i, q);
                assert(self@.questions =~= old(self)@.questions.update(i as int, out@));
                Some(out)
            },
        }
    }

    /// Sets the projection axes of the first question with id `question_id`.
    pub fn set_axes(
        &mut self,
        question_id: &String,
        x_axis: Option<(String, String)>,
        y_axis: Option<(String, String)>,
    ) -> (r: Option<Question>)
        ensures
            (final(self)@, r.deep_view()) == old(self)@.set_axes(
                question_id@,
                x_axis.deep_view(),
                y_axis.deep_view(),
            ),
    {
        match find_index(&self.questions, question_id) {
            None => None,
            Some(i) => {
                let mut q = self.questions.remove(i);
                let ghost old_q = q@;
                let ghost xa = x_axis.deep_view();
                let ghost ya = y_axis.deep_view();
                q.x_axis = x_axis;
                q.y_axis = y_axis;
                assert(q@ == old_q.set_axes(xa, ya));
                let out = q.copy();
                self.questions.insert(i, q);
                assert(self@.questions =~= old(self)@.questions.update(i as int, out@));
                Some(out)
            },
        }
    }

    /// All users.
    pub fn get_users(&self) -> (r: Vec<User>)
        ensures
            r.deep_view() == self@.users,
    {
        copy_users(&self.users)
    }

    /// Stores `user`: the first user of that name takes its shape and
    /// color, or it is added. Returns all users.
    pub fn upsert_user(&mut self, user: User) -> (r: Vec<User>)
        ensures
            final(self)@ == old(self)@.upsert_user(user@),
            r.deep_view() == final(self)@.users,
    {
        let ghost u = user@;
        match find_index(&self.users, &user.name) {
            Some(i) => {
                let mut existing = self.users.remove(i);
                existing.shape = user.shape;
                existing.color = user.color;
                self.users.insert(i, existing);
                assert(self@.users =~= upsert_user(old(self)@.users, u));
            },
            None => {
                self.users.push(user);
                assert(self@.users =~= upsert_user(old(self)@.users, u));
            },
        }
        copy_users(&self.users)
    }

    /// The (author, text) pairs of the open answers of the first question
    /// with id `question_id`; none when there is no such question.
    pub fn open_answer_pairs(&self, question_id: &String) -> (r: Vec<(String, String)>)
        ensures
            match find_key(self@.questions, question_id@) {
                None => r@.len() == 0,
                Some(i) => r@.len() == self@.questions[i].open_answers.len() && forall|j: int|
                    0 <= j < r@.len() ==> (#[trigger] r@[j]).0@
                        == self@.questions[i].open_answers[j].user_name && r@[j].1@
                        == self@.questions[i].open_answers[j].text,
            },
    {
        let mut r: Vec<(String, String)> = Vec::new();
        match find_index(&self.questions, question_id) {
            None => {},
            Some(i) => {
                let q = &self.questions[i];
                let mut j: usize = 0;
                while j < q.open_answers.len()
                    invariant
                        j <= q.open_answers.len(),
                        r@.len() == j,
                        forall|k: int|
                            0 <= k < j ==> (#[trigger] r@[k]).0@ == q@.open_answers[k].user_name
                                && r@[k].1@ == q@.open_answers[k].text,
                    decreases q.open_answers.len() - j,
                {
                    let a = &q.open_answers[j];
                    r.push((a.user_name.clone(), a.text.clone()));
                    j = j + 1;
                }
            },
        }
        r
    }
}

} // verus!
