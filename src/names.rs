//! Localized names: a mapping from language code to display name.

use vstd::prelude::*;
use vstd::string::*;
use crate::json::{JsonValue, lookup};
use crate::text::{debug_text, quoted};

verus! {

/// Pairs of (key, value) with no key twice.
pub open spec fn keys_distinct(m: Seq<(Seq<char>, Seq<char>)>) -> bool {
    forall|i: int, j: int| 0 <= i < j < m.len() ==> m[i].0 != m[j].0
}

pub open spec fn has_key(m: Seq<(Seq<char>, Seq<char>)>, k: Seq<char>) -> bool {
    exists|i: int| 0 <= i < m.len() && m[i].0 == k
}

/// The position of key `k`, where it is present.
pub open spec fn key_index(m: Seq<(Seq<char>, Seq<char>)>, k: Seq<char>) -> int {
    choose|i: int| 0 <= i < m.len() && m[i].0 == k
}

/// The value stored under `k`.
pub open spec fn value_of(m: Seq<(Seq<char>, Seq<char>)>, k: Seq<char>) -> Option<Seq<char>> {
    if has_key(m, k) {
        Some(m[key_index(m, k)].1)
    } else {
        None
    }
}

/// `m` with `k` mapped to `v`: a present key keeps its place and takes the
/// new value, a new key goes last.
pub open spec fn put(m: Seq<(Seq<char>, Seq<char>)>, k: Seq<char>, v: Seq<char>) -> Seq<(Seq<char>, Seq<char>)> {
    if has_key(m, k) {
        m.update(key_index(m, k), (k, v))
    } else {
        m.push((k, v))
    }
}

/// Display names keyed by language code (`"en"`, `"de"`, ...). The set of
/// keys is open; entries keep the order in which their keys first came.
#[derive(Debug, PartialEq, Eq)]
pub struct NameMap {
    entries: Vec<(String, String)>,
}

impl View for NameMap {
    type V = Seq<(Seq<char>, Seq<char>)>;

    closed spec fn view(&self) -> Seq<(Seq<char>, Seq<char>)> {
        self.entries@.map_values(|p: (String, String)| (p.0@, p.1@))
    }
}

impl NameMap {
    #[verifier::type_invariant]
    closed spec fn inv(self) -> bool {
        keys_distinct(self@)
    }

    pub fn new() -> (r: NameMap)
        ensures
            r@ == Seq::<(Seq<char>, Seq<char>)>::empty(),
    {
        let r = NameMap { entries: Vec::new() };
        assert(r@ =~= Seq::<(Seq<char>, Seq<char>)>::empty());
        r
    }

    /// Number of names held.
    pub fn len(&self) -> (r: usize)
        ensures
            r == self@.len(),
    {
        self.entries.len()
    }

    /// Maps `key` to `value`, replacing the value a present key had.
    pub fn insert(&mut self, key: String, value: String)
        ensures
            final(self)@ == put(old(self)@, key@, value@),
            keys_distinct(final(self)@),
    {
        proof {
            use_type_invariant(&*self);
        }
        let ghost before = self@;
        let mut entries: Vec<(String, String)> = Vec::new();
        std::mem::swap(&mut entries, &mut self.entries);
        let n = entries.len();
        let mut i: usize = 0;
        let mut found = false;
        while i < n && !found
            invariant
                n == entries@.len(),
                before == entries@.map_values(|p: (String, String)| (p.0@, p.1@)),
                keys_distinct(before),
                i <= n,
                found ==> i < n && before[i as int].0 == key@,
                forall|j: int| 0 <= j < i ==> before[j].0 != key@,
            decreases n - i + (if found { 0int } else { 1int }),
        {
            assert(before[i as int].0 == entries@[i as int].0@);
            if entries[i].0 == key {
                found = true;
            } else {
                i = i + 1;
            }
        }
        if found {
            assert(has_key(before, key@));
            assert(key_index(before, key@) == i);
            let ghost want = before.update(i as int, (key@, value@));
            entries.set(i, (key, value));
            assert(entries@.map_values(|p: (String, String)| (p.0@, p.1@)) =~= want);
        } else {
            assert(!has_key(before, key@));
            let ghost want = before.push((key@, value@));
            entries.push((key, value));
            assert(entries@.map_values(|p: (String, String)| (p.0@, p.1@)) =~= want);
        }
        self.entries = entries;
    }

    /// The value stored under `key`.
    pub fn get(&self, key: &str) -> (r: Option<&String>)
        ensures
            match r {
                Some(v) => value_of(self@, key@) == Some(v@),
                None => value_of(self@, key@) is None,
            },
    {
        proof {
            use_type_invariant(self);
        }
        let wanted = key.to_owned();
        let n = self.entries.len();
        let mut i: usize = 0;
        while i < n
            invariant
                n == self@.len(),
                keys_distinct(self@),
                wanted@ == key@,
                i <= n,
                forall|j: int| 0 <= j < i ==> self@[j].0 != key@,
            decreases n - i,
        {
            assert(self@[i as int] == (self.entries@[i as int].0@, self.entries@[i as int].1@));
            if self.entries[i].0 == wanted {
                assert(has_key(self@, key@));
                assert(key_index(self@, key@) == i);
                return Some(&self.entries[i].1);
            }
            i = i + 1;
        }
        None
    }
}


/// The names that object members give, read in order; `None` unless every
/// value is a string. A repeated key keeps its first place and its last value.
pub open spec fn names_of(m: Seq<(String, JsonValue)>) -> Option<Seq<(Seq<char>, Seq<char>)>>
    decreases m.len(),
{
    if m.len() == 0 {
        Some(Seq::empty())
    } else {
        match names_of(m.drop_last()) {
            Some(acc) => match m.last().1 {
                JsonValue::Str(s) => Some(put(acc, m.last().0@, s@)),
                _ => None,
            },
            None => None,
        }
    }
}

/// The names that a JSON value gives: it must be an object of strings.
pub open spec fn names_json(v: JsonValue) -> Option<Seq<(Seq<char>, Seq<char>)>> {
    match v {
        JsonValue::Object(m) => names_of(m@),
        _ => None,
    }
}

/// The names that the member `key` gives; it must be present.
pub open spec fn names_member(m: Seq<(String, JsonValue)>, key: Seq<char>) -> Option<Seq<(Seq<char>, Seq<char>)>> {
    match lookup(m, key) {
        Some(v) => names_json(v),
        None => None,
    }
}

/// One name as text: the quoted key, a colon and the quoted value.
pub open spec fn name_entry_text(e: (Seq<char>, Seq<char>)) -> Seq<char> {
    debug_text(e.0) + ": "@ + debug_text(e.1)
}

/// The names as text, in order, separated by commas.
pub open spec fn name_entries_text(m: Seq<(Seq<char>, Seq<char>)>) -> Seq<char>
    decreases m.len(),
{
    if m.len() == 0 {
        Seq::empty()
    } else if m.len() == 1 {
        name_entry_text(m[0])
    } else {
        name_entries_text(m.drop_last()) + ", "@ + name_entry_text(m.last())
    }
}

/// The names as text, in braces.
pub open spec fn names_text(m: Seq<(Seq<char>, Seq<char>)>) -> Seq<char> {
    "{"@ + name_entries_text(m) + "}"@
}

proof fn lemma_names_fail_extends(m: Seq<(String, JsonValue)>, i: int)
    requires
        0 <= i <= m.len(),
        names_of(m.subrange(0, i)) is None,
    ensures
        names_of(m) is None,
    decreases m.len() - i,
{
    if i == m.len() {
        assert(m.subrange(0, i) =~= m);
    } else {
        assert(m.subrange(0, i + 1).drop_last() =~= m.subrange(0, i));
        lemma_names_fail_extends(m, i + 1);
    }
}

impl NameMap {
    /// Reads names from a JSON object whose values are all strings.
    pub fn from_json(v: &JsonValue) -> (r: Option<NameMap>)
        ensures
            match r {
                Some(n) => names_json(*v) == Some(n@),
                None => names_json(*v) is None,
            },
    {
        match v {
            JsonValue::Object(m) => {
                let mut names = NameMap::new();
                let n = m.len();
                let mut i: usize = 0;
                assert(m@.subrange(0, 0) =~= Seq::<(String, JsonValue)>::empty());
                while i < n
                    invariant
                        n == m@.len(),
                        i <= n,
                        names_of(m@.subrange(0, i as int)) == Some(names@),
                        names_json(*v) == names_of(m@),
                    decreases n - i,
                {
                    assert(m@.subrange(0, i + 1).drop_last() =~= m@.subrange(0, i as int));
                    assert(m@.subrange(0, i + 1).last() == m@[i as int]);
                    match &m[i].1 {
                        JsonValue::Str(s) => {
                            names.insert(m[i].0.clone(), s.clone());
                        },
                        _ => {
                            proof {
                                lemma_names_fail_extends(m@, i + 1);
                            }
                            return None;
                        },
                    }
                    i = i + 1;
                }
                assert(m@.subrange(0, n as int) =~= m@);
                Some(names)
            },
            _ => None,
        }
    }
}

/// Members whose values are all strings, under distinct keys.
pub open spec fn distinct_string_members(m: Seq<(String, JsonValue)>) -> bool {
    &&& forall|i: int| 0 <= i < m.len() ==> (#[trigger] m[i]).1 is Str
    &&& forall|i: int, j: int| 0 <= i < j < m.len() ==> (#[trigger] m[i]).0@ != (#[trigger] m[j]).0@
}

/// The (key, value) texts of string members.
pub open spec fn member_texts(m: Seq<(String, JsonValue)>) -> Seq<(Seq<char>, Seq<char>)> {
    m.map_values(|e: (String, JsonValue)| (e.0@, str_content(e.1)))
}

pub open spec fn str_content(v: JsonValue) -> Seq<char> {
    match v {
        JsonValue::Str(s) => s@,
        _ => Seq::empty(),
    }
}

/// An object of strings under distinct keys reads as names that keep every
/// key and every value, in document order.
pub proof fn lemma_names_keep_all(m: Seq<(String, JsonValue)>)
    requires
        distinct_string_members(m),
    ensures
        names_of(m) == Some(member_texts(m)),
    decreases m.len(),
{
    if m.len() > 0 {
        let init = m.drop_last();
        assert forall|i: int| 0 <= i < init.len() implies (#[trigger] init[i]).1 is Str by {
            assert(init[i] == m[i]);
        }
        assert forall|i: int, j: int| 0 <= i < j < init.len() implies (#[trigger] init[i]).0@ != (#[trigger] init[j]).0@ by {
            assert(init[i] == m[i] && init[j] == m[j]);
        }
        lemma_names_keep_all(init);
        let acc = member_texts(init);
        let last = m.last();
        assert(last == m[m.len() - 1]);
        assert(!has_key(acc, last.0@)) by {
            if has_key(acc, last.0@) {
                let i = choose|i: int| 0 <= i < acc.len() && acc[i].0 == last.0@;
                assert(init[i] == m[i]);
            }
        }
        assert(member_texts(m) =~= acc.push((last.0@, str_content(last.1))));
    }
}

impl NameMap {
    /// The names as a JSON object of strings, in order.
    pub fn to_json(&self) -> (v: JsonValue)
        ensures
            names_json(v) == Some(self@),
    {
        proof {
            use_type_invariant(self);
        }
        let mut m: Vec<(String, JsonValue)> = Vec::new();
        let n = self.entries.len();
        let mut i: usize = 0;
        while i < n
            invariant
                n == self@.len(),
                keys_distinct(self@),
                i <= n,
                m@.len() == i,
                forall|j: int| 0 <= j < i ==> (#[trigger] m@[j]).1 is Str,
                member_texts(m@) =~= self@.subrange(0, i as int),
            decreases n - i,
        {
            let ghost before = m@;
            assert(self@[i as int] == (self.entries@[i as int].0@, self.entries@[i as int].1@));
            m.push((self.entries[i].0.clone(), JsonValue::Str(self.entries[i].1.clone())));
            assert(m@ == before.push(m@.last()));
            assert(member_texts(m@) =~= self@.subrange(0, i + 1));
            i = i + 1;
        }
        assert forall|a: int, b: int| 0 <= a < b < m@.len() implies (#[trigger] m@[a]).0@ != (#[trigger] m@[b]).0@ by {
            assert(member_texts(m@)[a] == self@[a] && member_texts(m@)[b] == self@[b]);
        }
        proof {
            lemma_names_keep_all(m@);
        }
        JsonValue::Object(m)
    }

    /// The names as text, in order: `{"en": "Canada", "fr": "Canada"}`.
    pub fn render(&self) -> (r: String)
        ensures
            r@ == names_text(self@),
    {
        let mut body = String::new();
        let n = self.entries.len();
        let mut i: usize = 0;
        assert(self@.subrange(0, 0) =~= Seq::<(Seq<char>, Seq<char>)>::empty());
        while i < n
            invariant
                n == self@.len(),
                i <= n,
                body@ == name_entries_text(self@.subrange(0, i as int)),
            decreases n - i,
        {
            let ghost before = self@.subrange(0, i as int);
            let ghost next = self@.subrange(0, i + 1);
            assert(next.drop_last() =~= before);
            assert(next.last() == (self.entries@[i as int].0@, self.entries@[i as int].1@));
            let mut entry = quoted(self.entries[i].0.as_str());
            entry.append(": ");
            entry.append(quoted(self.entries[i].1.as_str()).as_str());
            if i > 0 {
                body.append(", ");
            } else {
                assert(before.len() == 0);
            }
            body.append(entry.as_str());
            i = i + 1;
        }
        assert(self@.subrange(0, n as int) =~= self@);
        let mut r = String::from_str("{");
        r.append(body.as_str());
        r.append("}");
        r
    }
}

/// Reads the required names member `key`.
pub fn read_names(m: &Vec<(String, JsonValue)>, key: &str) -> (r: Option<NameMap>)
    ensures
        match r {
            Some(n) => names_member(m@, key@) == Some(n@),
            None => names_member(m@, key@) is None,
        },
{
    match crate::json::get_member(m, key) {
        Some(v) => NameMap::from_json(v),
        None => None,
    }
}

} // verus!
