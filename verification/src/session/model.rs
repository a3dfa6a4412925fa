use sqlx::postgres::types::PgHstore;
use vstd::prelude::*;

verus! {

/// `sqlx`'s `hstore` value: a map from text keys to optional text values.
#[verifier::external_type_specification]
#[verifier::external_body]
pub struct ExPgHstore(PgHstore);

/// What a `PgHstore` holds: each key with its (possibly missing) value.
pub uninterp spec fn hstore_entries(h: PgHstore) -> Map<Seq<char>, Option<Seq<char>>>;

/// The text of an optional string.
pub open spec fn opt_text(o: Option<String>) -> Option<Seq<char>> {
    match o {
        Some(s) => Some(s@),
        None => None,
    }
}

/// The text of an optional value, or the empty text where there is none.
pub open spec fn text_or_empty(o: Option<Seq<char>>) -> Seq<char> {
    match o {
        Some(s) => s,
        None => Seq::empty(),
    }
}

/// The text of each pair of strings.
pub open spec fn text_pairs(d: Seq<(String, String)>) -> Seq<(Seq<char>, Seq<char>)> {
    d.map_values(|p: (String, String)| (p.0@, p.1@))
}

/// The text of each key and optional value.
pub open spec fn text_opt_pairs(d: Seq<(String, Option<String>)>) -> Seq<(Seq<char>, Option<Seq<char>>)> {
    d.map_values(|p: (String, Option<String>)| (p.0@, opt_text(p.1)))
}

/// No key occurs twice among the entries.
pub open spec fn keys_distinct<V>(entries: Seq<(Seq<char>, V)>) -> bool {
    forall|i: int, j: int|
        0 <= i < entries.len() && 0 <= j < entries.len() && i != j ==> #[trigger] entries[i].0
            != #[trigger] entries[j].0
}

/// `entries` lists the map `m` exactly: once each key, with its value.
pub open spec fn enumerates<V>(entries: Seq<(Seq<char>, V)>, m: Map<Seq<char>, V>) -> bool {
    &&& entries.len() == m.dom().len()
    &&& keys_distinct(entries)
    &&& forall|i: int|
        0 <= i < entries.len() ==> m.contains_key(#[trigger] entries[i].0) && m[entries[i].0]
            == entries[i].1
    &&& forall|k: Seq<char>| #[trigger]
        m.contains_key(k) ==> exists|i: int| 0 <= i < entries.len() && entries[i].0 == k
}

/// `m` after storing each pair of `d` in turn, the value present; a later pair
/// wins over an earlier one with the same key.
pub open spec fn insert_all(
    m: Map<Seq<char>, Option<Seq<char>>>,
    d: Seq<(Seq<char>, Seq<char>)>,
) -> Map<Seq<char>, Option<Seq<char>>>
    decreases d.len(),
{
    if d.len() == 0 {
        m
    } else {
        insert_all(m, d.drop_last()).insert(d.last().0, Some(d.last().1))
    }
}

/// Each key with its value, a missing value read as the empty text.
pub open spec fn flattened(m: Map<Seq<char>, Option<Seq<char>>>) -> Map<Seq<char>, Seq<char>> {
    Map::new(|k: Seq<char>| m.contains_key(k), |k: Seq<char>| text_or_empty(m[k]))
}

/// The contents of an `hstore` that holds nothing.
pub open spec fn no_data() -> Map<Seq<char>, Option<Seq<char>>> {
    Map::empty()
}

/// A character of the lowercase base32hex alphabet that xid ids are written in.
pub open spec fn is_xid_char(c: char) -> bool {
    ('0' <= c && c <= '9') || ('a' <= c && c <= 'v')
}

/// The text shape of an xid id: twenty characters of `[0-9a-v]`.
pub open spec fn is_xid_text(t: Seq<char>) -> bool {
    t.len() == 20 && forall|i: int| 0 <= i < t.len() ==> is_xid_char(#[trigger] t[i])
}

/// `xid::new()` rendered with its `Display` impl: a fresh id from the clock,
/// the machine, the process and a counter. The value is not stated, only its
/// shape: `Display` writes twenty characters of `0123456789abcdefghijklmnopqrstuv`.
/// (`xid::new` panics if the system clock reads before 1970; that is not excluded.)
#[verifier::external_body]
fn new_xid_token() -> (t: String)
    ensures
        is_xid_text(t@),
{
    xid::new().to_string()
}

/// `PgHstore::default()`: the derived default, an empty map.
#[verifier::external_body]
fn empty_hstore() -> (h: PgHstore)
    ensures
        hstore_entries(h) == no_data(),
{
    PgHstore::default()
}

/// `BTreeMap::insert` on the map inside a `PgHstore` (reached through its
/// `DerefMut`): the key now maps to the value, every other key is unchanged.
/// The previous value that `insert` hands back is dropped.
#[verifier::external_body]
fn hstore_insert(h: &mut PgHstore, key: String, value: Option<String>)
    ensures
        hstore_entries(*final(h)) == hstore_entries(*old(h)).insert(key@, opt_text(value)),
{
    h.insert(key, value);
}

/// `PgHstore::into_iter` (the inner `BTreeMap`'s), collected: every entry
/// once. The order (ascending by key) is not stated.
#[verifier::external_body]
fn hstore_into_entries(h: PgHstore) -> (entries: Vec<(String, Option<String>)>)
    ensures
        enumerates(text_opt_pairs(entries@), hstore_entries(h)),
{
    h.into_iter().collect()
}

/// A session: its row id, the token that names it, and its data.
#[derive(Debug)]
pub struct Session {
    pub id: i32,
    pub token: String,
    pub data: PgHstore,
}

impl Session {
    /// A session not stored yet: id 0, a fresh xid token, no data.
    pub fn new() -> (s: Session)
        ensures
            s.id == 0,
            is_xid_text(s.token@),
            hstore_entries(s.data) == no_data(),
    {
        Self::with_token(new_xid_token())
    }

    /// A session not stored yet, named by `token`: id 0, no data.
    pub fn with_token(token: String) -> (s: Session)
        ensures
            s.id == 0,
            s.token == token,
            hstore_entries(s.data) == no_data(),
    {
        Session { id: 0, token, data: empty_hstore() }
    }

    /// Stores each pair of `data` in turn, the value present; a later pair wins
    /// over an earlier one and over what the session held for that key.
    pub fn set_data(self, data: Vec<(String, String)>) -> (s: Session)
        ensures
            s.id == self.id,
            s.token == self.token,
            hstore_entries(s.data) == insert_all(hstore_entries(self.data), text_pairs(data@)),
    {
        let mut s = self;
        let mut i: usize = 0;
        while i < data.len()
            invariant
                i <= data.len(),
                s.id == self.id,
                s.token == self.token,
                hstore_entries(s.data) == insert_all(
                    hstore_entries(self.data),
                    text_pairs(data@).take(i as int),
                ),
            decreases data.len() - i,
        {
            let key = data[i].0.clone();
            let value = data[i].1.clone();
            hstore_insert(&mut s.data, key, Some(value));
            proof {
                let t = text_pairs(data@);
                assert(t.take(i + 1).drop_last() =~= t.take(i as int));
            }
            i = i + 1;
        }
        proof {
            assert(text_pairs(data@).take(data@.len() as int) =~= text_pairs(data@));
        }
        s
    }

    /// Stores `value` under `key`, replacing what was there.
    pub fn insert(self, key: String, value: String) -> (s: Session)
        ensures
            s.id == self.id,
            s.token == self.token,
            hstore_entries(s.data) == hstore_entries(self.data).insert(key@, Some(value@)),
    {
        let mut s = self;
        hstore_insert(&mut s.data, key, Some(value));
        s
    }

    /// A new session (see [`Session::new`]) holding `data` (see [`Session::set_data`]).
    pub fn with_data(data: Vec<(String, String)>) -> (s: Session)
        ensures
            s.id == 0,
            is_xid_text(s.token@),
            hstore_entries(s.data) == insert_all(
                no_data(),
                text_pairs(data@),
            ),
    {
        let s = Self::new();
        s.set_data(data)
    }

    /// The data as plain pairs, once each key, a missing value as the empty string.
    pub fn into_pairs(self) -> (pairs: Vec<(String, String)>)
        ensures
            enumerates(text_pairs(pairs@), flattened(hstore_entries(self.data))),
    {
        let ghost m = hstore_entries(self.data);
        let entries = hstore_into_entries(self.data);
        let mut pairs: Vec<(String, String)> = Vec::new();
        let mut i: usize = 0;
        while i < entries.len()
            invariant
                i <= entries.len(),
                pairs.len() == i,
                enumerates(text_opt_pairs(entries@), m),
                forall|j: int|
                    0 <= j < i ==> (#[trigger] pairs@[j]).0@ == entries@[j].0@ && pairs@[j].1@
                        == text_or_empty(opt_text(entries@[j].1)),
            decreases entries.len() - i,
        {
            let key = entries[i].0.clone();
            let value = match &entries[i].1 {
                Some(v) => v.clone(),
                None => String::new(),
            };
            assert(value@ == text_or_empty(opt_text(entries@[i as int].1)));
            pairs.push((key, value));
            i = i + 1;
        }
        proof {
            let e = text_opt_pairs(entries@);
            let p = text_pairs(pairs@);
            let f = flattened(m);
            assert(f.dom() =~= m.dom());
            assert forall|j: int| 0 <= j < p.len() implies f.contains_key(#[trigger] p[j].0)
                && f[p[j].0] == p[j].1 by {
                assert(p[j].0 == e[j].0);
                assert(m.contains_key(e[j].0));
            }
            assert forall|k: Seq<char>| #[trigger] f.contains_key(k) implies exists|j: int|
                0 <= j < p.len() && p[j].0 == k by {
                assert(m.contains_key(k));
                let j = choose|j: int| 0 <= j < e.len() && e[j].0 == k;
                assert(p[j].0 == k);
            }
            assert forall|a: int, b: int|
                0 <= a < p.len() && 0 <= b < p.len() && a != b implies #[trigger] p[a].0
                != #[trigger] p[b].0 by {
                assert(p[a].0 == e[a].0);
                assert(p[b].0 == e[b].0);
            }
        }
        pairs
    }
}

/// Storing distinct keys one by one yields exactly those keys, each with its value.
pub proof fn lemma_insert_all_distinct(d: Seq<(Seq<char>, Seq<char>)>)
    requires
        keys_distinct(d),
    ensures
        insert_all(no_data(), d).dom().finite(),
        insert_all(no_data(), d).dom().len() == d.len(),
        forall|j: int|
            0 <= j < d.len() ==> #[trigger] insert_all(no_data(), d).contains_key(d[j].0)
                && insert_all(no_data(), d)[d[j].0] == Some(d[j].1),
        forall|k: Seq<char>| #[trigger]
            insert_all(no_data(), d).contains_key(k) ==> exists|j: int|
                0 <= j < d.len() && d[j].0 == k,
    decreases d.len(),
{
    if d.len() > 0 {
        let init = d.drop_last();
        assert(keys_distinct(init)) by {
            assert forall|a: int, b: int|
                0 <= a < init.len() && 0 <= b < init.len() && a != b implies #[trigger] init[a].0
                != #[trigger] init[b].0 by {
                assert(init[a] == d[a] && init[b] == d[b]);
            }
        }
        lemma_insert_all_distinct(init);
        let before = insert_all(no_data(), init);
        let last = d.last();
        assert(!before.contains_key(last.0)) by {
            if before.contains_key(last.0) {
                let j = choose|j: int| 0 <= j < init.len() && init[j].0 == last.0;
                assert(d[j].0 == d[d.len() - 1].0);
            }
        }
        assert forall|j: int| 0 <= j < d.len() implies #[trigger] insert_all(
            no_data(),
            d,
        ).contains_key(d[j].0) && insert_all(no_data(), d)[d[j].0] == Some(d[j].1) by {
            if j < d.len() - 1 {
                assert(init[j] == d[j]);
                assert(before.contains_key(init[j].0));
            }
        }
        assert forall|k: Seq<char>| #[trigger]
            insert_all(no_data(), d).contains_key(k) implies exists|j: int|
            0 <= j < d.len() && d[j].0 == k by {
            if k != last.0 {
                assert(before.contains_key(k));
                let j = choose|j: int| 0 <= j < init.len() && init[j].0 == k;
                assert(d[j].0 == k);
            } else {
                assert(d[d.len() - 1].0 == k);
            }
        }
    } else {
        assert(insert_all(no_data(), d).dom() =~= Set::empty());
    }
}

/// Session data round trip: data without a repeated key (as every map, and
/// every session `CreateForm`, holds it), given to a new session
/// ([`Session::with_data`], `CreateForm::into_session`), comes back as the very
/// same pairs, no more and no fewer, when the session is turned into plain
/// pairs ([`Session::into_pairs`]).
pub proof fn session_data_round_trip(
    d: Seq<(Seq<char>, Seq<char>)>,
    out: Seq<(Seq<char>, Seq<char>)>,
)
    requires
        keys_distinct(d),
        enumerates(out, flattened(insert_all(no_data(), d))),
    ensures
        out.len() == d.len(),
        forall|p: (Seq<char>, Seq<char>)| out.contains(p) <==> d.contains(p),
{
    lemma_insert_all_distinct(d);
    let m = insert_all(no_data(), d);
    let f = flattened(m);
    assert(f.dom() =~= m.dom());
    assert forall|p: (Seq<char>, Seq<char>)| out.contains(p) implies d.contains(p) by {
        let i = choose|i: int| 0 <= i < out.len() && out[i] == p;
        assert(f.contains_key(out[i].0));
        let j = choose|j: int| 0 <= j < d.len() && d[j].0 == p.0;
        assert(m[d[j].0] == Some(d[j].1));
        assert(d[j] == p);
    }
    assert forall|p: (Seq<char>, Seq<char>)| d.contains(p) implies out.contains(p) by {
        let j = choose|j: int| 0 <= j < d.len() && d[j] == p;
        assert(m.contains_key(d[j].0));
        assert(f.contains_key(p.0));
        let i = choose|i: int| 0 <= i < out.len() && out[i].0 == p.0;
        assert(out[i] == p);
    }
}

/// Read back after insert: once `value` is stored under `key`
/// ([`Session::insert`]), the plain pairs of the session
/// ([`Session::into_pairs`]) hold `(key, value)`.
pub proof fn inserted_value_read_back(
    before: Map<Seq<char>, Option<Seq<char>>>,
    key: Seq<char>,
    value: Seq<char>,
    out: Seq<(Seq<char>, Seq<char>)>,
)
    requires
        enumerates(out, flattened(before.insert(key, Some(value)))),
    ensures
        out.contains((key, value)),
{
    let f = flattened(before.insert(key, Some(value)));
    assert(f.contains_key(key));
    let i = choose|i: int| 0 <= i < out.len() && out[i].0 == key;
    assert(out[i] == (key, value));
}

/// Storing pairs in turn: a key that no pair names keeps what it had (present
/// or not, and its value), and a key that pairs name ends with the value of the
/// last of them.
pub proof fn later_pair_wins(
    m: Map<Seq<char>, Option<Seq<char>>>,
    d: Seq<(Seq<char>, Seq<char>)>,
    k: Seq<char>,
)
    ensures
        (forall|j: int| 0 <= j < d.len() ==> #[trigger] d[j].0 != k) ==> (insert_all(
            m,
            d,
        ).contains_key(k) == m.contains_key(k)) && (m.contains_key(k) ==> insert_all(m, d)[k]
            == m[k]),
        forall|j: int|
            0 <= j < d.len() && #[trigger] d[j].0 == k && (forall|j2: int|
                j < j2 < d.len() ==> d[j2].0 != k) ==> insert_all(m, d).contains_key(k)
                && insert_all(m, d)[k] == Some(d[j].1),
    decreases d.len(),
{
    if d.len() > 0 {
        let init = d.drop_last();
        later_pair_wins(m, init, k);
        assert forall|j: int|
            0 <= j < d.len() && #[trigger] d[j].0 == k && (forall|j2: int|
                j < j2 < d.len() ==> d[j2].0 != k) implies insert_all(m, d).contains_key(k)
            && insert_all(m, d)[k] == Some(d[j].1) by {
            if j < d.len() - 1 {
                assert(d[d.len() - 1].0 != k);
                assert(init[j] == d[j]);
                assert(forall|j2: int| j < j2 < init.len() ==> init[j2] == d[j2]);
            }
        }
        if forall|j: int| 0 <= j < d.len() ==> #[trigger] d[j].0 != k {
            assert(d[d.len() - 1].0 != k);
            assert forall|j: int| 0 <= j < init.len() implies #[trigger] init[j].0 != k by {
                assert(init[j] == d[j]);
            }
        }
    }
}

/// Reading the data as plain text keeps every key, gives a present value as
/// it is, and a missing value as the empty text.
pub proof fn missing_value_reads_empty(m: Map<Seq<char>, Option<Seq<char>>>, k: Seq<char>)
    ensures
        flattened(m).contains_key(k) == m.contains_key(k),
        m.contains_key(k) && m[k] is None ==> flattened(m)[k] == Seq::<char>::empty(),
        m.contains_key(k) ==> (m[k] matches Some(v) ==> flattened(m)[k] == v),
{
}

/// Entries that list a map hold exactly its key-value pairs, no more, and
/// there are as many as the map has keys.
pub proof fn entries_are_the_map<V>(entries: Seq<(Seq<char>, V)>, m: Map<Seq<char>, V>)
    requires
        enumerates(entries, m),
    ensures
        entries.len() == m.dom().len(),
        forall|k: Seq<char>, v: V| (m.contains_key(k) && m[k] == v) <==> entries.contains((k, v)),
{
    assert forall|k: Seq<char>, v: V| (m.contains_key(k) && m[k] == v) implies entries.contains(
        (k, v),
    ) by {
        let i = choose|i: int| 0 <= i < entries.len() && entries[i].0 == k;
        assert(entries[i] == (k, v));
    }
    assert forall|k: Seq<char>, v: V| entries.contains((k, v)) implies m.contains_key(k) && m[k]
        == v by {
        let i = choose|i: int| 0 <= i < entries.len() && entries[i] == (k, v);
        assert(m.contains_key(entries[i].0));
    }
}

} // verus!
