//! A map from parameter names to values, kept in the order of its keys.

use crate::text;
use vstd::prelude::*;
use vstd::string::*;

verus! {

/// One parameter: its name and its value.
pub type Pair = (Seq<char>, Seq<char>);

/// The texts of a list of parameters.
pub open spec fn texts(pairs: Seq<(String, String)>) -> Seq<Pair> {
    pairs.map_values(|p: (String, String)| (p.0@, p.1@))
}

/// The map that results from inserting the parameters one after the other.
pub open spec fn as_map(pairs: Seq<Pair>) -> Map<Seq<char>, Seq<char>>
    decreases pairs.len(),
{
    if pairs.len() == 0 {
        Map::empty()
    } else {
        as_map(pairs.drop_last()).insert(pairs.last().0, pairs.last().1)
    }
}

/// Whether the names are strictly ascending in the order of [`text::text_before`].
pub open spec fn in_key_order(pairs: Seq<Pair>) -> bool {
    forall|i: int, j: int|
        0 <= i < j < pairs.len() ==> text::text_before(#[trigger] pairs[i].0, #[trigger] pairs[j].0)
}

/// Parameters in the order of their names, each name at most once.
pub struct ParamMap {
    entries: Vec<(String, String)>,
}

impl View for ParamMap {
    type V = Map<Seq<char>, Seq<char>>;

    open spec fn view(&self) -> Map<Seq<char>, Seq<char>> {
        as_map(self.pairs())
    }
}

impl ParamMap {
    /// The parameters in the order in which they are walked.
    pub closed spec fn pairs(&self) -> Seq<Pair> {
        texts(self.entries@)
    }

    /// The names ascend, so none occurs twice.
    pub open spec fn wf(&self) -> bool {
        in_key_order(self.pairs())
    }

    /// A map without parameters.
    pub fn new() -> (map: ParamMap)
        ensures
            map.wf(),
            map.pairs() == Seq::<Pair>::empty(),
            map@ == Map::<Seq<char>, Seq<char>>::empty(),
    {
        let map = ParamMap { entries: Vec::new() };
        assert(map.pairs() == Seq::<Pair>::empty());
        map
    }

    /// How many parameters the map holds.
    pub fn len(&self) -> (n: usize)
        ensures
            n == self.pairs().len(),
    {
        self.entries.len()
    }

    /// The name of the parameter at position `i` of the walk.
    pub fn key(&self, i: usize) -> (key: &str)
        requires
            i < self.pairs().len(),
        ensures
            key@ == self.pairs()[i as int].0,
    {
        self.entries[i].0.as_str()
    }

    /// The value of the parameter at position `i` of the walk.
    pub fn value(&self, i: usize) -> (value: &str)
        requires
            i < self.pairs().len(),
        ensures
            value@ == self.pairs()[i as int].1,
    {
        self.entries[i].1.as_str()
    }

    /// Sets the parameter `key` to `value`, in place of an earlier value.
    pub fn insert(&mut self, key: &str, value: &str)
        requires
            old(self).wf(),
        ensures
            final(self).wf(),
            final(self)@ == old(self)@.insert(key@, value@),
    {
        let ghost before = self.pairs();
        let mut i: usize = 0;
        while i < self.entries.len() && text::str_before(self.entries[i].0.as_str(), key)
            invariant
                *self == *old(self),
                before == self.pairs(),
                i <= self.entries@.len(),
                forall|j: int| 0 <= j < i ==> text::text_before(#[trigger] before[j].0, key@),
            decreases self.entries@.len() - i,
        {
            i += 1;
        }
        proof {
            lemma_order_all();
        }
        if i < self.entries.len() && !text::str_before(key, self.entries[i].0.as_str()) {
            self.entries.set(i, (key.to_owned(), value.to_owned()));
            proof {
                let after = self.pairs();
                assert(before[i as int].0 == key@);
                assert(after =~= before.update(i as int, (key@, value@)));
                assert forall|a: int, b: int| 0 <= a < b < after.len() implies text::text_before(
                    #[trigger] after[a].0,
                    #[trigger] after[b].0,
                ) by {
                    assert(after[a].0 == before[a].0);
                    assert(after[b].0 == before[b].0);
                }
                lemma_as_map_update(before, i as int, value@);
            }
        } else {
            self.entries.insert(i, (key.to_owned(), value.to_owned()));
            proof {
                let after = self.pairs();
                assert(after =~= before.insert(i as int, (key@, value@)));
                assert forall|j: int| i <= j < before.len() implies text::text_before(
                    key@,
                    #[trigger] before[j].0,
                ) by {
                    assert(text::text_before(key@, before[i as int].0));
                }
                lemma_as_map_insert(before, i as int, (key@, value@));
            }
        }
    }
}

/// The order facts that the walk of [`ParamMap::insert`] rests on, for all texts.
pub(crate) proof fn lemma_order_all()
    ensures
        forall|a: Seq<char>| !#[trigger] text::text_before(a, a),
        forall|a: Seq<char>, b: Seq<char>, c: Seq<char>|
            #[trigger] text::text_before(a, b) && #[trigger] text::text_before(b, c) ==> text::text_before(a, c),
        forall|a: Seq<char>, b: Seq<char>|
            a == b || #[trigger] text::text_before(a, b) || text::text_before(b, a),
{
    assert forall|a: Seq<char>| !#[trigger] text::text_before(a, a) by {
        text::lemma_text_order(a, a, a);
    }
    assert forall|a: Seq<char>, b: Seq<char>, c: Seq<char>|
        #[trigger] text::text_before(a, b) && #[trigger] text::text_before(b, c) implies text::text_before(a, c) by {
        text::lemma_text_order(a, b, c);
    }
    assert forall|a: Seq<char>, b: Seq<char>|
        a == b || #[trigger] text::text_before(a, b) || text::text_before(b, a) by {
        text::lemma_text_order(a, b, b);
    }
}

/// The names of the map are the names in the list.
pub(crate) proof fn lemma_as_map_dom(pairs: Seq<Pair>, key: Seq<char>)
    ensures
        as_map(pairs).dom().contains(key) <==> exists|i: int|
            0 <= i < pairs.len() && #[trigger] pairs[i].0 == key,
    decreases pairs.len(),
{
    if pairs.len() > 0 {
        let front = pairs.drop_last();
        lemma_as_map_dom(front, key);
        if as_map(front).dom().contains(key) {
            let i = choose|i: int| 0 <= i < front.len() && #[trigger] front[i].0 == key;
            assert(pairs[i].0 == key);
        }
        if exists|i: int| 0 <= i < pairs.len() && #[trigger] pairs[i].0 == key {
            let i = choose|i: int| 0 <= i < pairs.len() && #[trigger] pairs[i].0 == key;
            if i < front.len() {
                assert(front[i].0 == key);
            }
        }
        assert(pairs[pairs.len() - 1].0 == pairs.last().0);
    }
}

/// In a list whose names ascend, each name has the value beside it.
pub(crate) proof fn lemma_as_map_value(pairs: Seq<Pair>, i: int)
    requires
        in_key_order(pairs),
        0 <= i < pairs.len(),
    ensures
        as_map(pairs).dom().contains(pairs[i].0),
        as_map(pairs)[pairs[i].0] == pairs[i].1,
    decreases pairs.len(),
{
    lemma_as_map_dom(pairs, pairs[i].0);
    let last = pairs.len() - 1;
    if i < last {
        let front = pairs.drop_last();
        assert(in_key_order(front));
        lemma_as_map_value(front, i);
        text::lemma_text_order(pairs[i].0, pairs[i].0, pairs[i].0);
        assert(text::text_before(pairs[i].0, pairs[last].0));
    }
}

proof fn lemma_as_map_update(pairs: Seq<Pair>, i: int, value: Seq<char>)
    requires
        in_key_order(pairs),
        in_key_order(pairs.update(i, (pairs[i].0, value))),
        0 <= i < pairs.len(),
    ensures
        as_map(pairs.update(i, (pairs[i].0, value))) == as_map(pairs).insert(pairs[i].0, value),
{
    let key = pairs[i].0;
    let after = pairs.update(i, (key, value));
    assert forall|k: Seq<char>| #[trigger]
        as_map(after).dom().contains(k) <==> as_map(pairs).insert(key, value).dom().contains(k) by {
        lemma_as_map_dom(pairs, k);
        lemma_as_map_dom(after, k);
        if exists|j: int| 0 <= j < pairs.len() && #[trigger] pairs[j].0 == k {
            let j = choose|j: int| 0 <= j < pairs.len() && #[trigger] pairs[j].0 == k;
            assert(after[j].0 == k);
        }
        if exists|j: int| 0 <= j < after.len() && #[trigger] after[j].0 == k {
            let j = choose|j: int| 0 <= j < after.len() && #[trigger] after[j].0 == k;
            assert(pairs[j].0 == k);
        }
        assert(after[i].0 == key);
    }
    assert forall|k: Seq<char>| #[trigger] as_map(after).dom().contains(k) implies as_map(after)[k]
        == as_map(pairs).insert(key, value)[k] by {
        lemma_as_map_dom(after, k);
        let j = choose|j: int| 0 <= j < after.len() && #[trigger] after[j].0 == k;
        lemma_as_map_value(after, j);
        lemma_as_map_value(pairs, j);
        if k == key {
            lemma_as_map_value(after, i);
        }
    }
    assert(as_map(after) =~= as_map(pairs).insert(key, value));
}

proof fn lemma_as_map_insert(pairs: Seq<Pair>, i: int, pair: Pair)
    requires
        in_key_order(pairs),
        0 <= i <= pairs.len(),
        forall|j: int| 0 <= j < i ==> text::text_before(#[trigger] pairs[j].0, pair.0),
        forall|j: int| i <= j < pairs.len() ==> text::text_before(pair.0, #[trigger] pairs[j].0),
    ensures
        in_key_order(pairs.insert(i, pair)),
        as_map(pairs.insert(i, pair)) == as_map(pairs).insert(pair.0, pair.1),
{
    let after = pairs.insert(i, pair);
    assert forall|a: int, b: int| 0 <= a < b < after.len() implies text::text_before(
        #[trigger] after[a].0,
        #[trigger] after[b].0,
    ) by {
        let pa = if a < i {
            a
        } else {
            a - 1
        };
        let pb = if b < i {
            b
        } else {
            b - 1
        };
        if a != i {
            assert(after[a] == pairs[pa]);
        }
        if b != i {
            assert(after[b] == pairs[pb]);
        }
    }
    assert forall|k: Seq<char>| #[trigger]
        as_map(after).dom().contains(k) <==> as_map(pairs).insert(pair.0, pair.1).dom().contains(
        k,
    ) by {
        lemma_as_map_dom(pairs, k);
        lemma_as_map_dom(after, k);
        assert(after[i].0 == pair.0);
        if exists|j: int| 0 <= j < pairs.len() && #[trigger] pairs[j].0 == k {
            let j = choose|j: int| 0 <= j < pairs.len() && #[trigger] pairs[j].0 == k;
            if j < i {
                assert(after[j].0 == k);
            } else {
                assert(after[j + 1].0 == k);
            }
        }
        if exists|j: int| 0 <= j < after.len() && #[trigger] after[j].0 == k {
            let j = choose|j: int| 0 <= j < after.len() && #[trigger] after[j].0 == k;
            if j < i {
                assert(pairs[j].0 == k);
            } else if j > i {
                assert(pairs[j - 1].0 == k);
            }
        }
    }
    assert forall|k: Seq<char>| #[trigger] as_map(after).dom().contains(k) implies as_map(after)[k]
        == as_map(pairs).insert(pair.0, pair.1)[k] by {
        lemma_as_map_dom(after, k);
        let j = choose|j: int| 0 <= j < after.len() && #[trigger] after[j].0 == k;
        lemma_as_map_value(after, j);
        lemma_as_map_value(after, i);
        if j < i {
            lemma_as_map_value(pairs, j);
        } else if j > i {
            lemma_as_map_value(pairs, j - 1);
        }
    }
    assert(as_map(after) =~= as_map(pairs).insert(pair.0, pair.1));
}

/// Appends a parameter to a list.
pub fn push(list: &mut Vec<(String, String)>, key: &str, value: &str)
    ensures
        texts(final(list)@) == texts(old(list)@).push((key@, value@)),
{
    list.push((key.to_owned(), value.to_owned()));
    assert(texts(list@) =~= texts(old(list)@).push((key@, value@)));
}

/// A list stands for the map of what comes before its last parameter, with
/// that parameter inserted.
pub(crate) proof fn lemma_as_map_push()
    ensures
        forall|pairs: Seq<Pair>, pair: Pair| #[trigger]
            as_map(pairs.push(pair)) == as_map(pairs).insert(pair.0, pair.1),
{
    assert forall|pairs: Seq<Pair>, pair: Pair| #[trigger]
        as_map(pairs.push(pair)) == as_map(pairs).insert(pair.0, pair.1) by {
        assert(pairs.push(pair).drop_last() == pairs);
    }
}

/// A parameter whose name comes after all others may stand at the end.
pub(crate) proof fn lemma_key_order_push(pairs: Seq<Pair>, pair: Pair)
    requires
        in_key_order(pairs),
        pairs.len() > 0 ==> text::text_before(pairs.last().0, pair.0),
    ensures
        in_key_order(pairs.push(pair)),
        as_map(pairs.push(pair)) == as_map(pairs).insert(pair.0, pair.1),
{
    let after = pairs.push(pair);
    assert(after.drop_last() == pairs);
    assert forall|i: int, j: int| 0 <= i < j < after.len() implies text::text_before(
        #[trigger] after[i].0,
        #[trigger] after[j].0,
    ) by {
        if j == pairs.len() && i < pairs.len() - 1 {
            text::lemma_text_order(pairs[i].0, pairs.last().0, pair.0);
        }
    }
}

/// The order in which parameters were inserted leaves no trace: two lists
/// whose names ascend and that stand for the same map are the same list.
pub proof fn lemma_key_order_unique(a: Seq<Pair>, b: Seq<Pair>)
    requires
        in_key_order(a),
        in_key_order(b),
        as_map(a) == as_map(b),
    ensures
        a == b,
    decreases a.len(),
{
    if a.len() == 0 {
        if b.len() > 0 {
            lemma_as_map_value(b, 0);
        }
        assert(a == b);
    } else {
        let ka = a.last().0;
        lemma_as_map_value(a, a.len() - 1);
        lemma_as_map_dom(b, ka);
        let j = choose|j: int| 0 <= j < b.len() && #[trigger] b[j].0 == ka;
        let kb = b.last().0;
        lemma_as_map_value(b, b.len() - 1);
        lemma_as_map_dom(a, kb);
        let i = choose|i: int| 0 <= i < a.len() && #[trigger] a[i].0 == kb;
        lemma_order_all();
        // If the last names differed, each would come before the other.
        assert(ka == kb) by {
            if j < b.len() - 1 {
                assert(text::text_before(b[j].0, b[b.len() - 1].0));
                if i < a.len() - 1 {
                    assert(text::text_before(a[i].0, a[a.len() - 1].0));
                }
            }
        }
        let fa = a.drop_last();
        let fb = b.drop_last();
        assert(in_key_order(fa));
        assert(in_key_order(fb));
        assert(!as_map(fa).dom().contains(ka)) by {
            lemma_as_map_dom(fa, ka);
            assert forall|m: int| 0 <= m < fa.len() implies #[trigger] fa[m].0 != ka by {
                assert(text::text_before(a[m].0, a[a.len() - 1].0));
            }
        }
        assert(!as_map(fb).dom().contains(ka)) by {
            lemma_as_map_dom(fb, ka);
            assert forall|m: int| 0 <= m < fb.len() implies #[trigger] fb[m].0 != ka by {
                assert(text::text_before(b[m].0, b[b.len() - 1].0));
            }
        }
        assert(as_map(fa) =~= as_map(a).remove(ka));
        assert(as_map(fb) =~= as_map(b).remove(ka));
        lemma_key_order_unique(fa, fb);
        assert(a == fa.push(a.last()));
        assert(b == fb.push(b.last()));
    }
}

/// A list has as many texts as parameters, each those of its parameter.
pub proof fn lemma_texts(pairs: Seq<(String, String)>, i: int)
    ensures
        texts(pairs).len() == pairs.len(),
        0 <= i < pairs.len() ==> texts(pairs)[i] == (pairs[i].0@, pairs[i].1@),
{
}

/// The map of a list holds a name if and only if the list does, with the value
/// that stands beside its last occurrence.
pub proof fn lemma_as_map_meaning(pairs: Seq<Pair>, key: Seq<char>, i: int)
    ensures
        as_map(pairs).dom().contains(key) <==> exists|j: int|
            0 <= j < pairs.len() && #[trigger] pairs[j].0 == key,
        0 <= i < pairs.len() && pairs[i].0 == key && (forall|j: int|
            i < j < pairs.len() ==> #[trigger] pairs[j].0 != key) ==> as_map(pairs)[key]
            == pairs[i].1,
    decreases pairs.len(),
{
    lemma_as_map_dom(pairs, key);
    if 0 <= i < pairs.len() - 1 && pairs[i].0 == key && (forall|j: int|
        i < j < pairs.len() ==> #[trigger] pairs[j].0 != key) {
        let front = pairs.drop_last();
        lemma_as_map_meaning(front, key, i);
        assert(pairs[pairs.len() - 1].0 != key);
        assert forall|j: int| i < j < front.len() implies #[trigger] front[j].0 != key by {
            assert(pairs[j].0 != key);
        }
    }
}

/// In a list whose names ascend, each name comes before every later one; so
/// no name occurs twice.
pub proof fn lemma_key_order_meaning(pairs: Seq<Pair>, i: int, j: int)
    requires
        in_key_order(pairs),
        0 <= i < j < pairs.len(),
    ensures
        text::text_before(pairs[i].0, pairs[j].0),
        pairs[i].0 != pairs[j].0,
{
    text::lemma_text_order(pairs[i].0, pairs[j].0, pairs[j].0);
}

/// A map is walked in the order of its names, from each to a later one; it
/// holds the parameters that the walk meets, and no others.
pub proof fn lemma_walk_meets_every_parameter(map: ParamMap, i: int, j: int, key: Seq<char>)
    requires
        map.wf(),
    ensures
        0 <= i < j < map.pairs().len() ==> text::text_before(map.pairs()[i].0, map.pairs()[j].0),
        0 <= i < map.pairs().len() ==> map@.contains_pair(map.pairs()[i].0, map.pairs()[i].1),
        map@.dom().contains(key) <==> exists|k: int|
            0 <= k < map.pairs().len() && #[trigger] map.pairs()[k].0 == key,
{
    lemma_as_map_dom(map.pairs(), key);
    if 0 <= i < map.pairs().len() {
        lemma_as_map_value(map.pairs(), i);
    }
}

} // verus!
