//! Parsing of URL query strings (`a=1&b=2`) into a key/value table.

use vstd::prelude::*;
use crate::text::{chars_of, string_of_range, str_eq};

verus! {

/// The `&`-separated segments of a query string, in order. Every
/// `&` ends a segment, so `""` has the single segment `""` and `"a&"`
/// has the segments `"a"` and `""`.
pub open spec fn segments(s: Seq<char>) -> Seq<Seq<char>>
    decreases s.len(),
{
    if s.len() == 0 {
        seq![Seq::<char>::empty()]
    } else {
        let prev = segments(s.drop_last());
        if s.last() == '&' {
            prev.push(Seq::<char>::empty())
        } else {
            prev.update(prev.len() - 1, prev.last().push(s.last()))
        }
    }
}

/// Position of the first `c` in `s`, or -1 when `c` does not occur.
pub open spec fn first_index(s: Seq<char>, c: char) -> int
    decreases s.len(),
{
    if s.len() == 0 {
        -1
    } else if s[0] == c {
        0
    } else {
        let r = first_index(s.drop_first(), c);
        if r < 0 { -1 } else { r + 1 }
    }
}

/// The key/value pair a segment stands for: the text before its first
/// `=` and the text after it; a segment without `=` stands for none.
pub open spec fn param_entry(seg: Seq<char>) -> Option<(Seq<char>, Seq<char>)> {
    let i = first_index(seg, '=');
    if i < 0 {
        None
    } else {
        Some((seg.take(i), seg.skip(i + 1)))
    }
}

/// The pairs of a list of segments, in order, skipping segments
/// without `=`.
pub open spec fn entries_of(segs: Seq<Seq<char>>) -> Seq<(Seq<char>, Seq<char>)>
    decreases segs.len(),
{
    if segs.len() == 0 {
        Seq::empty()
    } else {
        match param_entry(segs.last()) {
            Some(e) => entries_of(segs.drop_last()).push(e),
            None => entries_of(segs.drop_last()),
        }
    }
}

/// The table that inserting the pairs in order builds: a later pair
/// replaces an earlier one with the same key.
pub open spec fn table_of(pairs: Seq<(Seq<char>, Seq<char>)>) -> Map<Seq<char>, Seq<char>>
    decreases pairs.len(),
{
    if pairs.len() == 0 {
        Map::empty()
    } else {
        table_of(pairs.drop_last()).insert(pairs.last().0, pairs.last().1)
    }
}

/// The pairs a query string holds, in order of appearance.
pub open spec fn query_pairs(s: Seq<char>) -> Seq<(Seq<char>, Seq<char>)> {
    entries_of(segments(s))
}

/// The table a query string denotes.
pub open spec fn query_table(s: Seq<char>) -> Map<Seq<char>, Seq<char>> {
    table_of(query_pairs(s))
}

/// Key/value table read from a query string. Pairs are kept in order of
/// appearance; a lookup sees the last pair with the key.
pub struct QueryParams {
    keys: Vec<String>,
    values: Vec<String>,
}

impl View for QueryParams {
    type V = Map<Seq<char>, Seq<char>>;

    open spec fn view(&self) -> Map<Seq<char>, Seq<char>> {
        table_of(self.pairs())
    }
}

impl QueryParams {
    pub closed spec fn wf(&self) -> bool {
        self.keys@.len() == self.values@.len()
    }

    /// The pairs held, in order of insertion.
    pub closed spec fn pairs(&self) -> Seq<(Seq<char>, Seq<char>)> {
        Seq::new(self.keys@.len(), |i: int| (self.keys@[i]@, self.values@[i]@))
    }

    pub fn new() -> (res: Self)
        ensures
            res.wf(),
            res.pairs() == Seq::<(Seq<char>, Seq<char>)>::empty(),
            res@ == Map::<Seq<char>, Seq<char>>::empty(),
    {
        let res = QueryParams { keys: Vec::new(), values: Vec::new() };
        assert(res.pairs() =~= Seq::<(Seq<char>, Seq<char>)>::empty());
        res
    }

    /// Adds a pair; it replaces any earlier value of the key.
    pub fn insert(&mut self, key: String, value: String)
        requires
            old(self).wf(),
        ensures
            final(self).wf(),
            final(self).pairs() == old(self).pairs().push((key@, value@)),
            final(self)@ == old(self)@.insert(key@, value@),
    {
        let ghost k = key@;
        let ghost v = value@;
        self.keys.push(key);
        self.values.push(value);
        assert(self.pairs() =~= old(self).pairs().push((k, v)));
        assert(self.pairs().drop_last() =~= old(self).pairs());
    }

    /// Number of distinct keys in the table (a repeated key counts once).
    pub fn len(&self) -> (n: usize)
        requires
            self.wf(),
        ensures
            self@.dom().finite(),
            n == self@.dom().len(),
    {
        let total = self.keys.len();
        let mut count: usize = 0;
        let mut i: usize = 0;
        while i < total
            invariant
                self.wf(),
                total == self.keys@.len(),
                i <= total,
                count <= i,
                table_of(self.pairs().take(i as int)).dom().finite(),
                count == table_of(self.pairs().take(i as int)).dom().len(),
            decreases total - i,
        {
            let ghost p = self.pairs();
            let ghost pre = p.take(i as int);
            let mut seen = false;
            let mut j: usize = 0;
            while j < i
                invariant
                    self.wf(),
                    total == self.keys@.len(),
                    i < total,
                    j <= i,
                    p == self.pairs(),
                    pre == p.take(i as int),
                    seen ==> exists|m: int| 0 <= m < j && #[trigger] pre[m].0 == p[i as int].0,
                    !seen ==> forall|m: int| 0 <= m < j ==> #[trigger] pre[m].0 != p[i as int].0,
                decreases i - j,
            {
                assert(pre[j as int] == p[j as int]);
                assert(p[j as int].0 == self.keys@[j as int]@);
                assert(p[i as int].0 == self.keys@[i as int]@);
                if str_eq(self.keys[j].as_str(), self.keys[i].as_str()) {
                    seen = true;
                }
                j = j + 1;
            }
            proof {
                broadcast use vstd::set::group_set_axioms, vstd::map::group_map_axioms;
                let k = p[i as int].0;
                let next = p.take(i + 1);
                assert(next.drop_last() =~= pre);
                assert(next.last() == p[i as int]);
                assert(table_of(next) == table_of(pre).insert(k, p[i as int].1));
                assert(table_of(next).dom() =~= table_of(pre).dom().insert(k));
                if seen {
                    let m = choose|m: int| 0 <= m < i && #[trigger] pre[m].0 == k;
                    lemma_table_contains(pre, m);
                } else {
                    lemma_table_absent(pre, k);
                }
            }
            if !seen {
                count = count + 1;
            }
            i = i + 1;
        }
        assert(self.pairs().take(total as int) =~= self.pairs());
        count
    }

    /// The value of `key`, when some pair has that key.
    pub fn get(&self, key: &str) -> (res: Option<&String>)
        requires
            self.wf(),
        ensures
            match res {
                Some(v) => self@.contains_key(key@) && self@[key@] == v@,
                None => !self@.contains_key(key@),
            },
    {
        let mut i = self.keys.len();
        while i > 0
            invariant
                self.wf(),
                i <= self.keys@.len(),
                forall|j: int| i <= j < self.keys@.len() ==> self.pairs()[j].0 != key@,
            decreases i,
        {
            if str_eq(self.keys[i - 1].as_str(), key) {
                proof {
                    lemma_table_last_occurrence(self.pairs(), i - 1, key@);
                }
                return Some(&self.values[i - 1]);
            }
            i = i - 1;
        }
        proof {
            lemma_table_absent(self.pairs(), key@);
        }
        None
    }

    /// The value of `key`, or the empty string when no pair has that key.
    pub fn get_or_empty(&self, key: &str) -> (res: String)
        requires
            self.wf(),
        ensures
            self@.contains_key(key@) ==> res@ == self@[key@],
            !self@.contains_key(key@) ==> res@ == Seq::<char>::empty(),
    {
        match self.get(key) {
            Some(v) => v.clone(),
            None => String::new(),
        }
    }
}

proof fn lemma_table_last_occurrence(p: Seq<(Seq<char>, Seq<char>)>, j: int, k: Seq<char>)
    requires
        0 <= j < p.len(),
        p[j].0 == k,
        forall|m: int| j < m < p.len() ==> p[m].0 != k,
    ensures
        table_of(p).contains_key(k),
        table_of(p)[k] == p[j].1,
    decreases p.len(),
{
    if j < p.len() - 1 {
        lemma_table_last_occurrence(p.drop_last(), j, k);
    }
}

proof fn lemma_table_contains(p: Seq<(Seq<char>, Seq<char>)>, j: int)
    requires
        0 <= j < p.len(),
    ensures
        table_of(p).contains_key(p[j].0),
    decreases p.len(),
{
    if j < p.len() - 1 {
        lemma_table_contains(p.drop_last(), j);
    }
}

proof fn lemma_table_absent(p: Seq<(Seq<char>, Seq<char>)>, k: Seq<char>)
    requires
        forall|m: int| 0 <= m < p.len() ==> p[m].0 != k,
    ensures
        !table_of(p).contains_key(k),
    decreases p.len(),
{
    if p.len() > 0 {
        lemma_table_absent(p.drop_last(), k);
    }
}

/// Position of the first `=` in `cs[from..to]`, relative to `from`, or
/// `None` when there is none.
fn find_eq(cs: &Vec<char>, from: usize, to: usize) -> (res: Option<usize>)
    requires
        from <= to <= cs@.len(),
    ensures
        match res {
            Some(i) => i as int == first_index(cs@.subrange(from as int, to as int), '='),
            None => first_index(cs@.subrange(from as int, to as int), '=') < 0,
        },
{
    let ghost seg = cs@.subrange(from as int, to as int);
    let mut i = from;
    while i < to
        invariant
            from <= i <= to <= cs@.len(),
            seg == cs@.subrange(from as int, to as int),
            forall|m: int| from <= m < i ==> cs@[m] != '=',
        decreases to - i,
    {
        if cs[i] == '=' {
            proof {
                lemma_first_index_at(seg, '=', i - from);
            }
            return Some(i - from);
        }
        i = i + 1;
    }
    proof {
        lemma_first_index_none(seg, '=');
    }
    None
}

proof fn lemma_first_index_at(s: Seq<char>, c: char, i: int)
    requires
        0 <= i < s.len(),
        s[i] == c,
        forall|m: int| 0 <= m < i ==> s[m] != c,
    ensures
        first_index(s, c) == i,
    decreases i,
{
    if i > 0 {
        lemma_first_index_at(s.drop_first(), c, i - 1);
    }
}

proof fn lemma_first_index_none(s: Seq<char>, c: char)
    requires
        forall|m: int| 0 <= m < s.len() ==> s[m] != c,
    ensures
        first_index(s, c) < 0,
    decreases s.len(),
{
    if s.len() > 0 {
        lemma_first_index_none(s.drop_first(), c);
    }
}

proof fn lemma_first_index_range(s: Seq<char>, c: char)
    ensures
        first_index(s, c) < s.len(),
        first_index(s, c) >= -1,
    decreases s.len(),
{
    if s.len() > 0 {
        lemma_first_index_range(s.drop_first(), c);
    }
}

proof fn lemma_segments_nonempty(s: Seq<char>)
    ensures
        segments(s).len() >= 1,
    decreases s.len(),
{
    if s.len() > 0 {
        lemma_segments_nonempty(s.drop_last());
    }
}

/// Adds the pair that segment `cs[from..to]` stands for, if any.
fn add_segment(params: &mut QueryParams, cs: &Vec<char>, from: usize, to: usize)
    requires
        old(params).wf(),
        from <= to <= cs@.len(),
    ensures
        final(params).wf(),
        final(params).pairs() == match param_entry(cs@.subrange(from as int, to as int)) {
            Some(e) => old(params).pairs().push(e),
            None => old(params).pairs(),
        },
{
    let ghost seg = cs@.subrange(from as int, to as int);
    match find_eq(cs, from, to) {
        Some(i) => {
            proof {
                lemma_first_index_range(seg, '=');
            }
            let key = string_of_range(cs, from, from + i);
            let value = string_of_range(cs, from + i + 1, to);
            assert(key@ =~= seg.take(i as int));
            assert(value@ =~= seg.skip(i + 1));
            params.insert(key, value);
        },
        None => {},
    }
}

/// Splits `query` on `&` and each segment at its first `=`, keeping the
/// segments that hold a `=`; a later pair replaces an earlier one with the
/// same key.
pub fn parse_query_string(query: &str) -> (res: QueryParams)
    ensures
        res.wf(),
        res.pairs() == query_pairs(query@),
        res@ == query_table(query@),
{
    let cs = chars_of(query);
    let n = cs.len();
    let mut params = QueryParams::new();
    let mut start: usize = 0;
    let mut i: usize = 0;
    while i < n
        invariant
            n == cs@.len(),
            cs@ == query@,
            start <= i <= n,
            params.wf(),
            segments(cs@.take(i as int)).last() == cs@.subrange(start as int, i as int),
            params.pairs() == entries_of(segments(cs@.take(i as int)).drop_last()),
        decreases n - i,
    {
        let ghost pre = cs@.take(i as int);
        let ghost segs = segments(pre);
        proof {
            lemma_segments_nonempty(pre);
            assert(cs@.take(i + 1).drop_last() =~= pre);
        }
        if cs[i] == '&' {
            add_segment(&mut params, &cs, start, i);
            proof {
                let segs2 = segments(cs@.take(i + 1));
                assert(segs2 == segs.push(Seq::<char>::empty()));
                assert(segs2.drop_last() =~= segs);
                assert(segs.drop_last().push(segs.last()) =~= segs);
                assert(cs@.subrange((i + 1) as int, (i + 1) as int) =~= Seq::<char>::empty());
            }
            start = i + 1;
        } else {
            proof {
                let segs2 = segments(cs@.take(i + 1));
                assert(segs2.drop_last() =~= segs.drop_last());
                assert(cs@.subrange(start as int, i + 1) =~= cs@.subrange(start as int, i as int).push(
                    cs@[i as int],
                ));
            }
        }
        i = i + 1;
    }
    proof {
        let segs = segments(cs@.take(n as int));
        lemma_segments_nonempty(cs@.take(n as int));
        assert(cs@.take(n as int) =~= query@);
        assert(segs.drop_last().push(segs.last()) =~= segs);
    }
    add_segment(&mut params, &cs, start, n);
    params
}

// ---------------------------------------------------------------------
// Laws
// ---------------------------------------------------------------------

proof fn lemma_segments_concat(a: Seq<char>, b: Seq<char>)
    ensures
        segments(a.push('&') + b) == segments(a) + segments(b),
    decreases b.len(),
{
    lemma_segments_nonempty(a);
    lemma_segments_nonempty(b);
    if b.len() == 0 {
        assert(a.push('&') + b =~= a.push('&'));
        assert(a.push('&').drop_last() =~= a);
        assert(segments(a) + segments(b) =~= segments(a).push(Seq::<char>::empty()));
    } else {
        let b1 = b.drop_last();
        lemma_segments_concat(a, b1);
        lemma_segments_nonempty(b1);
        let s = a.push('&') + b;
        assert(s.drop_last() =~= a.push('&') + b1);
        assert(s.last() == b.last());
        if b.last() == '&' {
            assert(segments(a) + segments(b1).push(Seq::<char>::empty()) =~= (segments(a)
                + segments(b1)).push(Seq::<char>::empty()));
        } else {
            let p = segments(a) + segments(b1);
            let q = segments(b1);
            assert(p.last() == q.last());
            assert(p.update(p.len() - 1, p.last().push(b.last())) =~= segments(a) + q.update(
                q.len() - 1,
                q.last().push(b.last()),
            ));
        }
    }
}

proof fn lemma_entries_concat(x: Seq<Seq<char>>, y: Seq<Seq<char>>)
    ensures
        entries_of(x + y) == entries_of(x) + entries_of(y),
    decreases y.len(),
{
    if y.len() == 0 {
        assert(x + y =~= x);
        assert(entries_of(x) + entries_of(y) =~= entries_of(x));
    } else {
        lemma_entries_concat(x, y.drop_last());
        assert((x + y).drop_last() =~= x + y.drop_last());
        assert((x + y).last() == y.last());
        match param_entry(y.last()) {
            Some(e) => {
                assert(entries_of(x) + entries_of(y.drop_last()).push(e) =~= (entries_of(x)
                    + entries_of(y.drop_last())).push(e));
            },
            None => {},
        }
    }
}

proof fn lemma_table_concat(x: Seq<(Seq<char>, Seq<char>)>, y: Seq<(Seq<char>, Seq<char>)>)
    ensures
        table_of(x + y) == table_of(x).union_prefer_right(table_of(y)),
    decreases y.len(),
{
    if y.len() == 0 {
        assert(x + y =~= x);
        assert(table_of(x).union_prefer_right(table_of(y)) =~= table_of(x));
    } else {
        lemma_table_concat(x, y.drop_last());
        assert((x + y).drop_last() =~= x + y.drop_last());
        assert((x + y).last() == y.last());
        assert(table_of(x).union_prefer_right(table_of(y.drop_last())).insert(
            y.last().0,
            y.last().1,
        ) =~= table_of(x).union_prefer_right(table_of(y)));
    }
}

/// Joining two query strings with `&` joins their pairs, and a key of the
/// second string wins over the same key in the first:
/// `parse(a & b) == parse(a)` overridden by `parse(b)`.
pub proof fn law_query_concat(a: Seq<char>, b: Seq<char>)
    ensures
        query_pairs(a.push('&') + b) == query_pairs(a) + query_pairs(b),
        query_table(a.push('&') + b) == query_table(a).union_prefer_right(query_table(b)),
{
    lemma_segments_concat(a, b);
    lemma_entries_concat(segments(a), segments(b));
    lemma_table_concat(query_pairs(a), query_pairs(b));
}

/// A segment without `=` adds nothing, and a segment `k=v` whose key has
/// no `=` maps `k` to `v` (the value may itself hold `=`).
pub proof fn law_single_param(k: Seq<char>, v: Seq<char>)
    requires
        forall|i: int| 0 <= i < k.len() ==> k[i] != '=' && k[i] != '&',
        forall|i: int| 0 <= i < v.len() ==> v[i] != '&',
    ensures
        query_table(k.push('=') + v) == Map::<Seq<char>, Seq<char>>::empty().insert(k, v),
        query_table(k) == Map::<Seq<char>, Seq<char>>::empty(),
{
    let s = k.push('=') + v;
    lemma_segments_no_amp(s);
    lemma_segments_no_amp(k);
    lemma_first_index_at(s, '=', k.len() as int);
    lemma_first_index_none(k, '=');
    assert(s.take(k.len() as int) =~= k);
    assert(s.skip(k.len() as int + 1) =~= v);
    let segs = seq![s];
    assert(segs.drop_last() =~= Seq::<Seq<char>>::empty());
    assert(segs.last() == s);
    assert(param_entry(s) == Some((k, v)));
    assert(entries_of(Seq::<Seq<char>>::empty()) == Seq::<(Seq<char>, Seq<char>)>::empty());
    let p = entries_of(segs);
    assert(p == Seq::<(Seq<char>, Seq<char>)>::empty().push((k, v)));
    assert(p.drop_last() =~= Seq::<(Seq<char>, Seq<char>)>::empty());
    assert(table_of(p) == table_of(p.drop_last()).insert(k, v));
    let segk = seq![k];
    assert(segk.drop_last() =~= Seq::<Seq<char>>::empty());
    assert(param_entry(k) is None);
    assert(entries_of(segk) == entries_of(segk.drop_last()));
}

proof fn lemma_segments_no_amp(s: Seq<char>)
    requires
        forall|i: int| 0 <= i < s.len() ==> s[i] != '&',
    ensures
        segments(s) == seq![s],
    decreases s.len(),
{
    if s.len() > 0 {
        lemma_segments_no_amp(s.drop_last());
        assert(s.drop_last().push(s.last()) =~= s);
        assert(seq![s.drop_last()].update(0, s.drop_last().push(s.last())) =~= seq![s]);
    } else {
        assert(s =~= Seq::<char>::empty());
    }
}

} // verus!
