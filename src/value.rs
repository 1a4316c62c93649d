//! Typed property values and the ordered property objects that hold them.

use vstd::prelude::*;

verus! {

/// What a property value is, as the downstream schema reads it.
pub enum JsonVal {
    Bool(bool),
    /// A number, kept as the text it was read from.
    Number(Seq<char>),
    Text(Seq<char>),
    TextList(Seq<Seq<char>>),
    /// An object whose members all hold text.
    Members(Seq<(Seq<char>, Seq<char>)>),
}

/// A property value.
#[derive(Debug, PartialEq, Eq)]
pub enum PropValue {
    Bool(bool),
    /// A number, kept as the text it was read from (a complete JSON number).
    Number(String),
    Text(String),
    TextList(Vec<String>),
    Members(Vec<(String, String)>),
}

impl View for PropValue {
    type V = JsonVal;

    open spec fn view(&self) -> JsonVal {
        match self {
            PropValue::Bool(b) => JsonVal::Bool(*b),
            PropValue::Number(t) => JsonVal::Number(t@),
            PropValue::Text(t) => JsonVal::Text(t@),
            PropValue::TextList(l) => JsonVal::TextList(l.deep_view()),
            PropValue::Members(m) => JsonVal::Members(m.deep_view()),
        }
    }
}

/// Whether serde_json reads the whole of `s` as one JSON number.
pub uninterp spec fn json_number_accepts(s: Seq<char>) -> bool;

/// Relies on `<serde_json::Number as FromStr>::from_str`, which succeeds exactly
/// when the whole text is one JSON number in range.
#[verifier::external_body]
fn is_json_number(s: &str) -> (r: bool)
    ensures
        r == json_number_accepts(s@),
{
    s.parse::<serde_json::Number>().is_ok()
}

/// The typed value of a property that arrives as text: the literals `true`
/// and `false` are booleans, a JSON number is a number, anything else stays text.
pub open spec fn coerce_spec(s: Seq<char>) -> JsonVal {
    if s == "true"@ {
        JsonVal::Bool(true)
    } else if s == "false"@ {
        JsonVal::Bool(false)
    } else if json_number_accepts(s) {
        JsonVal::Number(s)
    } else {
        JsonVal::Text(s)
    }
}

/// The text a scalar value is read back from.
pub open spec fn scalar_text(v: JsonVal) -> Seq<char> {
    match v {
        JsonVal::Bool(b) => if b { "true"@ } else { "false"@ },
        JsonVal::Number(t) => t,
        JsonVal::Text(t) => t,
        JsonVal::TextList(_) => Seq::empty(),
        JsonVal::Members(_) => Seq::empty(),
    }
}

/// Coerces a textual property value into a typed value. Never fails. A text
/// that reads as a float but is no JSON number (`inf`, `NaN`, `+1`, `.5`,
/// `1e400`) stays text, so that the batch is always valid JSON.
pub fn parse_value(value: &str) -> (r: PropValue)
    ensures
        r@ == coerce_spec(value@),
{
    let owned = value.to_owned();
    if owned == String::from_str("true") {
        PropValue::Bool(true)
    } else if owned == String::from_str("false") {
        PropValue::Bool(false)
    } else if is_json_number(value) {
        PropValue::Number(owned)
    } else {
        PropValue::Text(owned)
    }
}

/// The members of a property object, in order.
pub type Props = Seq<(Seq<char>, JsonVal)>;

/// `i` is the first position of `m` that holds key `k`.
pub open spec fn is_first_key(m: Props, k: Seq<char>, i: int) -> bool {
    &&& 0 <= i < m.len()
    &&& m[i].0 == k
    &&& forall|j: int| 0 <= j < i ==> m[j].0 != k
}

/// Sets key `k` to `v`: a key already present keeps its position and takes the
/// new value; a new key goes last.
pub open spec fn props_insert(m: Props, k: Seq<char>, v: JsonVal) -> Props {
    if exists|i: int| is_first_key(m, k, i) {
        let i = choose|i: int| is_first_key(m, k, i);
        m.update(i, (k, v))
    } else {
        m.push((k, v))
    }
}

/// Sets each pair in turn, coercing its value.
pub open spec fn props_insert_coerced(m: Props, pairs: Seq<(Seq<char>, Seq<char>)>) -> Props
    decreases pairs.len(),
{
    if pairs.len() == 0 {
        m
    } else {
        let last = pairs.last();
        props_insert(props_insert_coerced(m, pairs.drop_last()), last.0, coerce_spec(last.1))
    }
}

/// No key occurs twice.
pub open spec fn keys_unique(m: Props) -> bool {
    forall|i: int, j: int| 0 <= i < m.len() && 0 <= j < m.len() && i != j ==> m[i].0 != m[j].0
}

/// Setting a key keeps the keys distinct.
pub proof fn lemma_insert_keeps_keys_unique(m: Props, k: Seq<char>, v: JsonVal)
    requires
        keys_unique(m),
    ensures
        keys_unique(props_insert(m, k, v)),
{
    if exists|i: int| is_first_key(m, k, i) {
        let i = choose|i: int| is_first_key(m, k, i);
        assert(m.update(i, (k, v))[i].0 == m[i].0);
    } else {
        assert forall|j: int| 0 <= j < m.len() implies m[j].0 != k by {
            if m[j].0 == k {
                lemma_first_key_exists(m, k, j);
            }
        }
    }
}

/// A key that occurs has a first position.
pub proof fn lemma_first_key_exists(m: Props, k: Seq<char>, j: int)
    requires
        0 <= j < m.len(),
        m[j].0 == k,
    ensures
        exists|i: int| is_first_key(m, k, i),
    decreases j,
{
    if forall|jj: int| 0 <= jj < j ==> m[jj].0 != k {
        assert(is_first_key(m, k, j));
    } else {
        let jj = choose|jj: int| 0 <= jj < j && !(m[jj].0 != k);
        lemma_first_key_exists(m, k, jj);
    }
}

/// Setting a key never shrinks an object, leaves it with a member, and keeps
/// its keys distinct.
pub proof fn lemma_insert_len(m: Props, k: Seq<char>, v: JsonVal)
    ensures
        props_insert(m, k, v).len() >= m.len(),
        props_insert(m, k, v).len() > 0,
        keys_unique(m) ==> keys_unique(props_insert(m, k, v)),
{
    if keys_unique(m) {
        lemma_insert_keeps_keys_unique(m, k, v);
    }
    if exists|i: int| is_first_key(m, k, i) {
        let i = choose|i: int| is_first_key(m, k, i);
        assert(0 <= i < m.len());
    }
}

/// Setting pairs never shrinks an object, keeps its keys distinct, and
/// setting at least one leaves it with a member.
pub proof fn lemma_insert_coerced_len(m: Props, pairs: Seq<(Seq<char>, Seq<char>)>)
    ensures
        props_insert_coerced(m, pairs).len() >= m.len(),
        pairs.len() > 0 ==> props_insert_coerced(m, pairs).len() > 0,
        keys_unique(m) ==> keys_unique(props_insert_coerced(m, pairs)),
    decreases pairs.len(),
{
    if pairs.len() > 0 {
        lemma_insert_coerced_len(m, pairs.drop_last());
        let last = pairs.last();
        lemma_insert_len(props_insert_coerced(m, pairs.drop_last()), last.0, coerce_spec(last.1));
    }
}

/// A property object: string keys, each present once, in insertion order.
#[derive(Debug, PartialEq, Eq)]
pub struct PropMap {
    entries: Vec<(String, PropValue)>,
}

impl View for PropMap {
    type V = Props;

    closed spec fn view(&self) -> Props {
        self.entries@.map_values(|e: (String, PropValue)| (e.0@, e.1@))
    }
}

impl PropMap {
    pub fn new() -> (r: PropMap)
        ensures
            r@ == Seq::<(Seq<char>, JsonVal)>::empty(),
    {
        let r = PropMap { entries: Vec::new() };
        assert(r@ =~= Seq::<(Seq<char>, JsonVal)>::empty());
        r
    }

    pub fn len(&self) -> (r: usize)
        ensures
            r == self@.len(),
    {
        self.entries.len()
    }

    pub fn is_empty(&self) -> (r: bool)
        ensures
            r == (self@.len() == 0),
    {
        self.entries.len() == 0
    }

    /// The members in order.
    pub fn entries(&self) -> (r: &Vec<(String, PropValue)>)
        ensures
            r@.len() == self@.len(),
            forall|i: int| 0 <= i < r@.len() ==> (#[trigger] r@[i].0@, r@[i].1@) == self@[i],
    {
        &self.entries
    }

    /// Sets `key` to `value`, in place when the key is present, else last.
    pub fn insert(&mut self, key: String, value: PropValue)
        ensures
            final(self)@ == props_insert(old(self)@, key@, value@),
    {
        let ghost k = key@;
        let ghost v = value@;
        let n = self.entries.len();
        let mut i: usize = 0;
        while i < n
            invariant
                0 <= i <= n,
                n == self.entries@.len(),
                *self == *old(self),
                k == key@,
                v == value@,
                forall|j: int| 0 <= j < i ==> self@[j].0 != k,
            decreases n - i,
        {
            assert(self@[i as int] == (self.entries@[i as int].0@, self.entries@[i as int].1@));
            if self.entries[i].0 == key {
                assert(is_first_key(self@, k, i as int));
                proof {
                    let c = choose|c: int| is_first_key(self@, k, c);
                    assert(c == i) by {
                        if c < i {
                            assert(self@[c].0 != k);
                        }
                        if c > i {
                            assert(self@[i as int].0 != k);
                        }
                    }
                }
                self.entries.set(i, (key, value));
                assert(self@ =~= props_insert(old(self)@, k, v));
                return;
            }
            i += 1;
        }
        assert(!exists|c: int| is_first_key(old(self)@, k, c)) by {
            if exists|c: int| is_first_key(old(self)@, k, c) {
                let c = choose|c: int| is_first_key(old(self)@, k, c);
                assert(self@[c].0 == k);
            }
        }
        self.entries.push((key, value));
        assert(self@ =~= props_insert(old(self)@, k, v));
    }

    /// Sets each pair in turn, its value coerced by `parse_value`.
    pub fn insert_coerced(&mut self, pairs: &Vec<(String, String)>)
        ensures
            final(self)@ == props_insert_coerced(old(self)@, pairs.deep_view()),
    {
        let n = pairs.len();
        let mut i: usize = 0;
        while i < n
            invariant
                0 <= i <= n,
                n == pairs@.len(),
                self@ == props_insert_coerced(old(self)@, pairs.deep_view().subrange(0, i as int)),
            decreases n - i,
        {
            let pair = &pairs[i];
            let value = parse_value(pair.1.as_str());
            self.insert(pair.0.clone(), value);
            proof {
                let d = pairs.deep_view();
                assert(d.subrange(0, i + 1).drop_last() =~= d.subrange(0, i as int));
            }
            i += 1;
        }
        assert(pairs.deep_view().subrange(0, n as int) =~= pairs.deep_view());
    }
}

} // verus!
