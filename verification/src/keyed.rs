//! Records found by a string key: topics and questions by id, users by
//! name, votes and open answers by the name of their author.
use vstd::prelude::*;

use crate::model::{OpenAnswer, OpenAnswerView, Question, QuestionView, Topic, TopicView, User, UserView, Vote, VoteView};

verus! {

/// A record that is looked up by a string key.
pub trait Keyed {
    spec fn key(&self) -> Seq<char>;
}

impl Keyed for TopicView {
    open spec fn key(&self) -> Seq<char> {
        self.id
    }
}

impl Keyed for QuestionView {
    open spec fn key(&self) -> Seq<char> {
        self.id
    }
}

impl Keyed for UserView {
    open spec fn key(&self) -> Seq<char> {
        self.name
    }
}

impl Keyed for VoteView {
    open spec fn key(&self) -> Seq<char> {
        self.user_name
    }
}

impl Keyed for OpenAnswerView {
    open spec fn key(&self) -> Seq<char> {
        self.user_name
    }
}

/// The first position at or after `start` whose record has key `k`.
pub open spec fn find_from<V: Keyed>(s: Seq<V>, k: Seq<char>, start: nat) -> Option<int>
    decreases s.len() - start,
{
    if start >= s.len() {
        None
    } else if s[start as int].key() == k {
        Some(start as int)
    } else {
        find_from(s, k, start + 1)
    }
}

/// The first position whose record has key `k`, as a linear search finds it.
pub open spec fn find_key<V: Keyed>(s: Seq<V>, k: Seq<char>) -> Option<int> {
    find_from(s, k, 0)
}

/// Some record has key `k`.
pub open spec fn has_key<V: Keyed>(s: Seq<V>, k: Seq<char>) -> bool {
    exists|i: int| 0 <= i < s.len() && (#[trigger] s[i]).key() == k
}

/// No two records share a key.
pub open spec fn unique_keys<V: Keyed>(s: Seq<V>) -> bool {
    forall|i: int, j: int|
        0 <= i < s.len() && 0 <= j < s.len() && i != j ==> (#[trigger] s[i]).key() != (
        #[trigger] s[j]).key()
}

/// The number of records with key `k`.
pub open spec fn key_count<V: Keyed>(s: Seq<V>, k: Seq<char>) -> nat
    decreases s.len(),
{
    if s.len() == 0 {
        0
    } else {
        key_count(s.drop_last(), k) + if s.last().key() == k {
            1nat
        } else {
            0nat
        }
    }
}

proof fn lemma_find_from<V: Keyed>(s: Seq<V>, k: Seq<char>, start: nat)
    ensures
        match find_from(s, k, start) {
            None => forall|i: int| start <= i < s.len() ==> (#[trigger] s[i]).key() != k,
            Some(i) => start <= i < s.len() && s[i].key() == k && forall|j: int|
                start <= j < i ==> (#[trigger] s[j]).key() != k,
        },
    decreases s.len() - start,
{
    if start < s.len() && s[start as int].key() != k {
        lemma_find_from(s, k, start + 1);
    }
}

/// What a linear search finds: nothing exactly when no record has the key,
/// else the first record that has it.
pub proof fn lemma_find_key<V: Keyed>(s: Seq<V>, k: Seq<char>)
    ensures
        match find_key(s, k) {
            None => !has_key(s, k),
            Some(i) => 0 <= i < s.len() && s[i].key() == k && forall|j: int|
                0 <= j < i ==> (#[trigger] s[j]).key() != k,
        },
{
    lemma_find_from(s, k, 0);
}

/// Keys that are unique have a count of at most one.
pub proof fn lemma_key_count_unique<V: Keyed>(s: Seq<V>, k: Seq<char>)
    requires
        unique_keys(s),
    ensures
        key_count(s, k) == if has_key(s, k) {
            1nat
        } else {
            0nat
        },
    decreases s.len(),
{
    if s.len() > 0 {
        let p = s.drop_last();
        assert(unique_keys(p)) by {
            assert forall|i: int, j: int|
                0 <= i < p.len() && 0 <= j < p.len() && i != j implies (#[trigger] p[i]).key()
                != (#[trigger] p[j]).key() by {
                assert(p[i] == s[i] && p[j] == s[j]);
            }
        }
        lemma_key_count_unique(p, k);
        if has_key(p, k) {
            let i = choose|i: int| 0 <= i < p.len() && (#[trigger] p[i]).key() == k;
            assert(s[i] == p[i]);
            assert(s.last() == s[s.len() - 1]);
            assert(has_key(s, k));
        } else if s.last().key() == k {
            assert(s[s.len() - 1].key() == k);
            assert(has_key(s, k));
        } else {
            assert forall|i: int| 0 <= i < s.len() implies (#[trigger] s[i]).key() != k by {
                if i < s.len() - 1 {
                    assert(p[i] == s[i]);
                }
            }
        }
    }
}

/// An exec record that exposes the string key of its view.
pub trait KeyedRecord: DeepView where <Self as DeepView>::V: Keyed {
    fn key_string(&self) -> (k: &String)
        ensures
            k@ == self.deep_view().key(),
    ;
}

impl KeyedRecord for Topic {
    fn key_string(&self) -> (k: &String) {
        &self.id
    }
}

impl KeyedRecord for Question {
    fn key_string(&self) -> (k: &String) {
        &self.id
    }
}

impl KeyedRecord for User {
    fn key_string(&self) -> (k: &String) {
        &self.name
    }
}

impl KeyedRecord for Vote {
    fn key_string(&self) -> (k: &String) {
        &self.user_name
    }
}

impl KeyedRecord for OpenAnswer {
    fn key_string(&self) -> (k: &String) {
        &self.user_name
    }
}

/// Linear search for the first record with key `k`.
pub fn find_index<T: KeyedRecord>(v: &Vec<T>, k: &String) -> (r: Option<usize>)
    where <T as DeepView>::V: Keyed,
    ensures
        match r {
            None => find_key(v.deep_view(), k@) is None,
            Some(i) => i < v.len() && find_key(v.deep_view(), k@) == Some(i as int),
        },
{
    let mut i: usize = 0;
    while i < v.len()
        invariant
            i <= v.len(),
            find_key(v.deep_view(), k@) == find_from(v.deep_view(), k@, i as nat),
        decreases v.len() - i,
    {
        if *v[i].key_string() == *k {
            return Some(i);
        }
        i = i + 1;
    }
    None
}

} // verus!
