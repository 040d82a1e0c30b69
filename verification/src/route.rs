//! Client-side routing: pages are addressed by the fragment of the URL
//! (`#/`, `#/topic/{id}`, `#/topic/{id}/question/{id}`), and the live
//! channel of a question by a WebSocket URL.
use vstd::prelude::*;

verus! {

/// The page a fragment addresses.
#[derive(Clone, Debug, PartialEq)]
pub enum Route {
    Home,
    Topic(String),
    Question(String, String),
}

pub enum RouteView {
    Home,
    Topic(Seq<char>),
    Question(Seq<char>, Seq<char>),
}

impl View for Route {
    type V = RouteView;

    open spec fn view(&self) -> RouteView {
        match self {
            Route::Home => RouteView::Home,
            Route::Topic(t) => RouteView::Topic(t@),
            Route::Question(t, q) => RouteView::Question(t@, q@),
        }
    }
}

/// `s` without its leading `#` characters, as `trim_start_matches('#')` gives it.
pub open spec fn strip_hashes(s: Seq<char>) -> Seq<char>
    decreases s.len(),
{
    if s.len() > 0 && s[0] == '#' {
        strip_hashes(s.drop_first())
    } else {
        s
    }
}

/// The pieces of `s` between `/` characters, as `str::split('/')` gives
/// them: one more than there are `/`, empty pieces included.
pub open spec fn split_slash(s: Seq<char>) -> Seq<Seq<char>>
    decreases s.len(),
{
    if s.len() == 0 {
        seq![Seq::empty()]
    } else {
        let p = split_slash(s.drop_last());
        if s.last() == '/' {
            p.push(Seq::empty())
        } else {
            p.update(p.len() - 1, p.last().push(s.last()))
        }
    }
}

/// The non-empty pieces of `ps`, in order.
pub open spec fn non_empty(ps: Seq<Seq<char>>) -> Seq<Seq<char>>
    decreases ps.len(),
{
    if ps.len() == 0 {
        Seq::empty()
    } else if ps.last().len() > 0 {
        non_empty(ps.drop_last()).push(ps.last())
    } else {
        non_empty(ps.drop_last())
    }
}

/// The path segments of a fragment.
pub open spec fn hash_segments(hash: Seq<char>) -> Seq<Seq<char>> {
    non_empty(split_slash(strip_hashes(hash)))
}

/// The page that path segments address: `topic/{t}/question/{q}`,
/// `topic/{t}`, and the home page for anything else.
pub open spec fn route_of_segments(segs: Seq<Seq<char>>) -> RouteView {
    if segs.len() == 4 && segs[0] == "topic"@ && segs[2] == "question"@ {
        RouteView::Question(segs[1], segs[3])
    } else if segs.len() == 2 && segs[0] == "topic"@ {
        RouteView::Topic(segs[1])
    } else {
        RouteView::Home
    }
}

proof fn lemma_split_nonempty(s: Seq<char>)
    ensures
        split_slash(s).len() >= 1,
    decreases s.len(),
{
    if s.len() > 0 {
        lemma_split_nonempty(s.drop_last());
    }
}

/// The page that a URL fragment addresses.
pub fn parse_route(hash: &str) -> (r: Route)
    ensures
        r@ == route_of_segments(hash_segments(hash@)),
{
    let ghost s = hash@;
    let n: usize = hash.unicode_len();
    let mut k: usize = 0;
    assert(s.subrange(0, n as int) =~= s);
    while k < n
        invariant
            s == hash@,
            n == s.len(),
            k <= n,
            strip_hashes(s) == strip_hashes(s.subrange(k as int, n as int)),
        ensures
            k <= n,
            strip_hashes(s) == s.subrange(k as int, n as int),
        decreases n - k,
    {
        if hash.get_char(k) != '#' {
            break;
        }
        assert(s.subrange(k as int, n as int).drop_first() =~= s.subrange(k + 1, n as int));
        k = k + 1;
    }
    let ghost t = s.subrange(k as int, n as int);
    let mut segs: Vec<String> = Vec::new();
    let ghost mut pieces: Seq<Seq<char>> = Seq::empty();
    let mut start: usize = k;
    let mut i: usize = k;
    assert(t.take(0) =~= Seq::<char>::empty());
    assert(s.subrange(k as int, k as int) =~= Seq::<char>::empty());
    while i < n
        invariant
            s == hash@,
            n == s.len(),
            t == s.subrange(k as int, n as int),
            k <= start <= i <= n,
            split_slash(t.take(i - k)) == pieces.push(s.subrange(start as int, i as int)),
            non_empty(pieces) == segs.deep_view(),
        decreases n - i,
    {
        let c = hash.get_char(i);
        let ghost cur = s.subrange(start as int, i as int);
        assert(t.take(i - k + 1).drop_last() =~= t.take(i - k));
        assert(t.take(i - k + 1).last() == c);
        if c == '/' {
            if start < i {
                segs.push(String::from_str(hash.substring_char(start, i)));
            }
            proof {
                assert(pieces.push(cur).drop_last() =~= pieces);
                pieces = pieces.push(cur);
            }
            start = i + 1;
            assert(s.subrange(start as int, start as int) =~= Seq::<char>::empty());
        } else {
            assert(s.subrange(start as int, i + 1) =~= cur.push(c));
            assert(pieces.push(cur).update(pieces.len() as int, cur.push(c)) =~= pieces.push(
                cur.push(c),
            ));
        }
        i = i + 1;
    }
    if start < n {
        segs.push(String::from_str(hash.substring_char(start, n)));
    }
    assert(t.take(n - k) =~= t);
    assert(pieces.push(s.subrange(start as int, n as int)).drop_last() =~= pieces);
    assert(segs.deep_view() == hash_segments(hash@));
    let topic = String::from_str("topic");
    let question = String::from_str("question");
    if segs.len() == 4 && segs[0] == topic && segs[2] == question {
        Route::Question(segs[1].clone(), segs[3].clone())
    } else if segs.len() == 2 && segs[0] == topic {
        Route::Topic(segs[1].clone())
    } else {
        Route::Home
    }
}

/// The fragment that addresses a page, as the links of the client write it.
pub open spec fn route_href(r: RouteView) -> Seq<char> {
    match r {
        RouteView::Home => "#/"@,
        RouteView::Topic(t) => "#/topic/"@ + t,
        RouteView::Question(t, q) => "#/topic/"@ + t + "/question/"@ + q,
    }
}

/// The fragment that addresses a page.
pub fn href(r: &Route) -> (s: String)
    ensures
        s@ == route_href(r@),
{
    match r {
        Route::Home => String::from_str("#/"),
        Route::Topic(t) => {
            let mut s = String::from_str("#/topic/");
            s.append(t.as_str());
            s
        },
        Route::Question(t, q) => {
            let mut s = String::from_str("#/topic/");
            s.append(t.as_str());
            s.append("/question/");
            s.append(q.as_str());
            s
        },
    }
}

/// The URL of the live channel of a question, on the host the page came
/// from, secure when the page is.
pub fn ws_url(page_protocol: &str, host: &str, topic_id: &str, question_id: &str) -> (url: String)
    ensures
        url@ == (if page_protocol@ == "https:"@ {
            "wss:"@
        } else {
            "ws:"@
        }) + "//"@ + host@ + "/api/topics/"@ + topic_id@ + "/questions/"@ + question_id@
            + "/ws"@,
{
    let https = String::from_str("https:");
    let mut url = if String::from_str(page_protocol) == https {
        String::from_str("wss:")
    } else {
        String::from_str("ws:")
    };
    url.append("//");
    url.append(host);
    url.append("/api/topics/");
    url.append(topic_id);
    url.append("/questions/");
    url.append(question_id);
    url.append("/ws");
    url
}

/// Splitting at a `/` splits the two sides separately.
proof fn lemma_split_concat(a: Seq<char>, b: Seq<char>)
    ensures
        split_slash(a + seq!['/'] + b) == split_slash(a) + split_slash(b),
    decreases b.len(),
{
    let w = a + seq!['/'] + b;
    if b.len() == 0 {
        assert(w.drop_last() =~= a);
        assert(split_slash(b) =~= seq![Seq::<char>::empty()]);
        assert(split_slash(a).push(Seq::<char>::empty()) =~= split_slash(a) + split_slash(b));
    } else {
        assert(w.drop_last() =~= a + seq!['/'] + b.drop_last());
        lemma_split_concat(a, b.drop_last());
        lemma_split_nonempty(b.drop_last());
        let pa = split_slash(a);
        let pb = split_slash(b.drop_last());
        if b.last() == '/' {
            assert((pa + pb).push(Seq::<char>::empty()) =~= pa + pb.push(Seq::<char>::empty()));
        } else {
            let p = pa + pb;
            assert(p.update(p.len() - 1, p.last().push(b.last())) =~= pa + pb.update(
                pb.len() - 1,
                pb.last().push(b.last()),
            ));
        }
    }
}

/// A piece with no `/` splits into itself.
proof fn lemma_split_no_slash(w: Seq<char>)
    requires
        forall|i: int| 0 <= i < w.len() ==> w[i] != '/',
    ensures
        split_slash(w) == seq![w],
    decreases w.len(),
{
    if w.len() > 0 {
        lemma_split_no_slash(w.drop_last());
        assert(w.drop_last().push(w.last()) =~= w);
        assert(seq![w.drop_last()].update(0, w.drop_last().push(w.last())) =~= seq![w]);
    } else {
        assert(w =~= Seq::<char>::empty());
    }
}

/// Dropping empty pieces works piecewise.
proof fn lemma_non_empty_concat(x: Seq<Seq<char>>, y: Seq<Seq<char>>)
    ensures
        non_empty(x + y) == non_empty(x) + non_empty(y),
    decreases y.len(),
{
    if y.len() == 0 {
        assert(x + y =~= x);
        assert(non_empty(y) =~= Seq::<Seq<char>>::empty());
        assert(non_empty(x) + non_empty(y) =~= non_empty(x));
    } else {
        assert((x + y).drop_last() =~= x + y.drop_last());
        lemma_non_empty_concat(x, y.drop_last());
        if y.last().len() > 0 {
            assert((non_empty(x) + non_empty(y.drop_last())).push(y.last()) =~= non_empty(x)
                + non_empty(y.drop_last()).push(y.last()));
        }
    }
}

proof fn lemma_non_empty_single(w: Seq<char>)
    ensures
        non_empty(seq![w]) == if w.len() > 0 {
            seq![w]
        } else {
            Seq::<Seq<char>>::empty()
        },
{
    assert(seq![w].drop_last() =~= Seq::<Seq<char>>::empty());
    assert(non_empty(Seq::<Seq<char>>::empty()) == Seq::<Seq<char>>::empty());
    assert(seq![w].last() == w);
    if w.len() > 0 {
        assert(Seq::<Seq<char>>::empty().push(w) =~= seq![w]);
    }
}

/// An id as the client puts it in a link: not empty, and without `/`.
pub open spec fn plain_id(s: Seq<char>) -> bool {
    s.len() > 0 && forall|i: int| 0 <= i < s.len() ==> s[i] != '/'
}

/// Following a link that the client writes leads back to the page it
/// addresses, whenever the ids in it are plain.
pub proof fn law_route_round_trip(r: RouteView)
    requires
        match r {
            RouteView::Home => true,
            RouteView::Topic(t) => plain_id(t),
            RouteView::Question(t, q) => plain_id(t) && plain_id(q),
        },
    ensures
        route_of_segments(hash_segments(route_href(r))) == r,
{
    reveal_strlit("#/");
    reveal_strlit("#/topic/");
    reveal_strlit("/question/");
    reveal_strlit("topic");
    reveal_strlit("question");
    let sl = seq!['/'];
    let e = Seq::<char>::empty();
    lemma_split_no_slash(e);
    lemma_split_no_slash("topic"@);
    lemma_split_no_slash("question"@);
    lemma_non_empty_single(e);
    lemma_non_empty_single("topic"@);
    lemma_non_empty_single("question"@);
    match r {
        RouteView::Home => {
            let h = route_href(r);
            assert(h.drop_first() =~= e + sl + e);
            assert(strip_hashes(h.drop_first()) == h.drop_first());
            lemma_split_concat(e, e);
            lemma_non_empty_concat(seq![e], seq![e]);
            assert(hash_segments(h) =~= Seq::<Seq<char>>::empty());
        },
        RouteView::Topic(t) => {
            let h = route_href(r);
            lemma_split_no_slash(t);
            lemma_non_empty_single(t);
            let c = "topic"@ + sl + t;
            assert(h.drop_first() =~= e + sl + c);
            assert(strip_hashes(h.drop_first()) == h.drop_first());
            lemma_split_concat("topic"@, t);
            lemma_split_concat(e, c);
            lemma_non_empty_concat(seq!["topic"@], seq![t]);
            lemma_non_empty_concat(seq![e], seq!["topic"@] + seq![t]);
            assert(hash_segments(h) =~= seq!["topic"@, t]);
        },
        RouteView::Question(t, q) => {
            let h = route_href(r);
            lemma_split_no_slash(t);
            lemma_split_no_slash(q);
            lemma_non_empty_single(t);
            lemma_non_empty_single(q);
            let a = "question"@ + sl + q;
            let b = t + sl + a;
            let c = "topic"@ + sl + b;
            assert(h.drop_first() =~= e + sl + c);
            assert(strip_hashes(h.drop_first()) == h.drop_first());
            lemma_split_concat("question"@, q);
            lemma_split_concat(t, a);
            lemma_split_concat("topic"@, b);
            lemma_split_concat(e, c);
            lemma_non_empty_concat(seq!["question"@], seq![q]);
            lemma_non_empty_concat(seq![t], seq!["question"@] + seq![q]);
            lemma_non_empty_concat(seq!["topic"@], seq![t] + (seq!["question"@] + seq![q]));
            lemma_non_empty_concat(
                seq![e],
                seq!["topic"@] + (seq![t] + (seq!["question"@] + seq![q])),
            );
            assert(hash_segments(h) =~= seq!["topic"@, t, "question"@, q]);
        },
    }
}

} // verus!
