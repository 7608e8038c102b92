//! A URL made of a base and query parameters.
use vstd::prelude::*;

verus! {

/// Parameters as (key, value) pairs, in order of first insertion.
pub type ParamsView = Seq<(Seq<char>, Seq<char>)>;

/// `s` with `key` bound to `value`: the pair of that key, if any, takes the
/// new value in place; otherwise the pair goes last.
pub open spec fn put(s: ParamsView, key: Seq<char>, value: Seq<char>) -> ParamsView
    decreases s.len(),
{
    if s.len() == 0 {
        seq![(key, value)]
    } else if s[0].0 == key {
        seq![(key, value)] + s.drop_first()
    } else {
        seq![s[0]] + put(s.drop_first(), key, value)
    }
}

/// `s` after putting each pair of `t`, in order.
pub open spec fn put_all(s: ParamsView, t: ParamsView) -> ParamsView
    decreases t.len(),
{
    if t.len() == 0 {
        s
    } else {
        let last = t.last();
        put(put_all(s, t.drop_last()), last.0, last.1)
    }
}

/// `"k1=v1&k2=v2..."`.
pub open spec fn query_text(s: ParamsView) -> Seq<char>
    decreases s.len(),
{
    if s.len() == 0 {
        Seq::empty()
    } else if s.len() == 1 {
        s[0].0 + "="@ + s[0].1
    } else {
        query_text(s.drop_last()) + "&"@ + s.last().0 + "="@ + s.last().1
    }
}

/// The base alone when there are no parameters, else `"{base}?{query}"`.
pub open spec fn url_text(base: Seq<char>, s: ParamsView) -> Seq<char> {
    if s.len() == 0 {
        base
    } else {
        base + "?"@ + query_text(s)
    }
}

pub open spec fn pair_view(p: (String, String)) -> (Seq<char>, Seq<char>) {
    (p.0@, p.1@)
}

proof fn lemma_put_at(s: ParamsView, key: Seq<char>, value: Seq<char>, p: int)
    requires
        0 <= p <= s.len(),
        forall|k: int| 0 <= k < p ==> (#[trigger] s[k]).0 != key,
        p < s.len() ==> s[p].0 == key,
    ensures
        put(s, key, value) == (if p < s.len() {
            s.update(p, (key, value))
        } else {
            s.push((key, value))
        }),
    decreases p,
{
    if p == 0 {
        if s.len() == 0 {
            assert(seq![(key, value)] =~= s.push((key, value)));
        } else {
            assert(seq![(key, value)] + s.drop_first() =~= s.update(0, (key, value)));
        }
    } else {
        let t = s.drop_first();
        assert forall|k: int| 0 <= k < p - 1 implies (#[trigger] t[k]).0 != key by {
            assert(t[k] == s[k + 1]);
        }
        lemma_put_at(t, key, value, p - 1);
        if p < s.len() {
            assert(seq![s[0]] + t.update(p - 1, (key, value)) =~= s.update(p, (key, value)));
        } else {
            assert(seq![s[0]] + t.push((key, value)) =~= s.push((key, value)));
        }
    }
}

/// No key occurs twice.
pub open spec fn keys_unique(s: ParamsView) -> bool {
    forall|i: int, j: int| 0 <= i < j < s.len() ==> (#[trigger] s[i]).0 != (#[trigger] s[j]).0
}

/// Putting a pair into parameters whose keys are unique keeps them unique,
/// and the key is then bound to the new value.
pub proof fn put_keeps_keys_unique(s: ParamsView, key: Seq<char>, value: Seq<char>)
    requires
        keys_unique(s),
    ensures
        keys_unique(put(s, key, value)),
        put(s, key, value).contains((key, value)),
{
    if exists|i: int| 0 <= i < s.len() && s[i].0 == key {
        let i = choose|i: int| 0 <= i < s.len() && s[i].0 == key;
        assert forall|k: int| 0 <= k < i implies (#[trigger] s[k]).0 != key by {
            assert(s[k].0 != s[i].0);
        }
        lemma_put_at(s, key, value, i);
        let r = s.update(i, (key, value));
        assert(r[i] == (key, value));
        assert forall|a: int, b: int| 0 <= a < b < r.len() implies (#[trigger] r[a]).0 != (
        #[trigger] r[b]).0 by {
            assert(s[a].0 != s[b].0);
        }
    } else {
        lemma_put_at(s, key, value, s.len() as int);
        let r = s.push((key, value));
        assert(r[s.len() as int] == (key, value));
        assert forall|a: int, b: int| 0 <= a < b < r.len() implies (#[trigger] r[a]).0 != (
        #[trigger] r[b]).0 by {
            if b < s.len() {
                assert(s[a].0 != s[b].0);
            } else {
                assert(s[a].0 != key);
            }
        }
    }
}

/// Adding parameters never repeats a key: putting any pairs into parameters
/// whose keys are unique leaves them unique.
pub proof fn put_all_keeps_keys_unique(s: ParamsView, t: ParamsView)
    requires
        keys_unique(s),
    ensures
        keys_unique(put_all(s, t)),
    decreases t.len(),
{
    if t.len() > 0 {
        put_all_keeps_keys_unique(s, t.drop_last());
        put_keeps_keys_unique(put_all(s, t.drop_last()), t.last().0, t.last().1);
    }
}

/// Query parameters; a key occurs at most once, and keys keep the order in
/// which they were first inserted.
#[derive(Debug, Clone)]
pub struct QueryParams {
    entries: Vec<(String, String)>,
}

impl View for QueryParams {
    type V = ParamsView;

    closed spec fn view(&self) -> ParamsView {
        self.entries@.map_values(|p: (String, String)| pair_view(p))
    }
}

impl QueryParams {
    /// No key occurs twice.
    pub open spec fn wf(&self) -> bool {
        keys_unique(self@)
    }

    pub fn new() -> (r: QueryParams)
        ensures
            r.wf(),
            r@ == Seq::<(Seq<char>, Seq<char>)>::empty(),
    {
        let r = QueryParams { entries: Vec::new() };
        assert(r@ =~= Seq::<(Seq<char>, Seq<char>)>::empty());
        r
    }

    /// The parameters of `pairs`, put in order: a later pair overrides the
    /// value of an earlier one with the same key.
    pub fn from_pairs(pairs: Vec<(String, String)>) -> (r: QueryParams)
        ensures
            r.wf(),
            r@ == put_all(Seq::empty(), pairs@.map_values(|p: (String, String)| pair_view(p))),
    {
        let mut r = QueryParams::new();
        r.insert_all(&pairs);
        r
    }

    pub fn len(&self) -> (r: usize)
        ensures
            r == self@.len(),
    {
        self.entries.len()
    }

    pub fn is_empty(&self) -> (r: bool)
        ensures
            r == (self@.len() == 0),
    {
        self.entries.len() == 0
    }

    /// Binds `key` to `value`, replacing an earlier value of `key`.
    pub fn insert(&mut self, key: String, value: String)
        requires
            old(self).wf(),
        ensures
            final(self).wf(),
            final(self)@ == put(old(self)@, key@, value@),
    {
        proof {
            put_keeps_keys_unique(self@, key@, value@);
        }
        let mut p: usize = 0;
        while p < self.entries.len() && self.entries[p].0 != key
            invariant
                p <= self@.len(),
                self@.len() == self.entries@.len(),
                forall|k: int| 0 <= k < p ==> (#[trigger] self@[k]).0 != key@,
            decreases self@.len() - p,
        {
            p = p + 1;
        }
        proof {
            lemma_put_at(self@, key@, value@, p as int);
        }
        let ghost before = self@;
        if p < self.entries.len() {
            self.entries.set(p, (key, value));
            assert(self@ =~= before.update(p as int, (key@, value@)));
        } else {
            self.entries.push((key, value));
            assert(self@ =~= before.push((key@, value@)));
        }
    }

    /// Puts each pair of `pairs`, in order.
    fn insert_all(&mut self, pairs: &Vec<(String, String)>)
        requires
            old(self).wf(),
        ensures
            final(self).wf(),
            final(self)@ == put_all(old(self)@, pairs@.map_values(|p: (String, String)| pair_view(p))),
    {
        let ghost start = self@;
        let ghost t = pairs@.map_values(|p: (String, String)| pair_view(p));
        let mut i: usize = 0;
        while i < pairs.len()
            invariant
                i <= pairs@.len(),
                t == pairs@.map_values(|p: (String, String)| pair_view(p)),
                self@ == put_all(start, t.take(i as int)),
                self.wf(),
            decreases pairs@.len() - i,
        {
            assert(t.take(i as int + 1).drop_last() =~= t.take(i as int));
            let key = pairs[i].0.clone();
            let value = pairs[i].1.clone();
            self.insert(key, value);
            i = i + 1;
        }
        assert(t.take(pairs@.len() as int) =~= t);
    }

    /// Appends `"k=v"` for each pair, separated by `&`.
    fn push_query(&self, out: &mut String)
        ensures
            final(out)@ == old(out)@ + query_text(self@),
    {
        let ghost start = out@;
        let mut i: usize = 0;
        while i < self.entries.len()
            invariant
                i <= self@.len(),
                self@.len() == self.entries@.len(),
                out@ == start + query_text(self@.take(i as int)),
            decreases self@.len() - i,
        {
            assert(self@.take(i as int + 1).drop_last() =~= self@.take(i as int));
            if i > 0 {
                out.append("&");
            }
            out.append(self.entries[i].0.as_str());
            out.append("=");
            out.append(self.entries[i].1.as_str());
            assert(out@ =~= start + query_text(self@.take(i as int + 1)));
            i = i + 1;
        }
        assert(self@.take(self@.len() as int) =~= self@);
    }
}

/// A base URL and its query parameters.
#[derive(Debug, Clone)]
pub struct Url {
    base: String,
    query_params: QueryParams,
}

impl Url {
    /// No parameter key occurs twice.
    pub closed spec fn wf(&self) -> bool {
        self.query_params.wf()
    }

    pub closed spec fn base_view(&self) -> Seq<char> {
        self.base@
    }

    pub closed spec fn params_view(&self) -> ParamsView {
        self.query_params@
    }

    pub fn new(base: &str) -> (r: Url)
        ensures
            r.wf(),
            r.base_view() == base@,
            r.params_view() == Seq::<(Seq<char>, Seq<char>)>::empty(),
    {
        Url { base: String::from_str(base), query_params: QueryParams::new() }
    }

    /// Adds `args` to the parameters; a key already present takes the new
    /// value.
    pub fn add_args(self, args: QueryParams) -> (r: Url)
        requires
            self.wf(),
        ensures
            r.wf(),
            r.base_view() == self.base_view(),
            r.params_view() == put_all(self.params_view(), args@),
    {
        let mut url = self;
        url.query_params.insert_all(&args.entries);
        url
    }

    /// The URL text: the base alone without parameters, else
    /// `"{base}?{k1}={v1}&{k2}={v2}..."`.
    pub fn build(&self) -> (r: String)
        ensures
            r@ == url_text(self.base_view(), self.params_view()),
    {
        if self.query_params.is_empty() {
            return self.base.clone();
        }
        let mut out = self.base.clone();
        out.append("?");
        self.query_params.push_query(&mut out);
        out
    }
}

} // verus!
