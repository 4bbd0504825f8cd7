//! The environment variables of a container that is to be created.
//!
//! The variables form a mapping: no name occurs twice. They keep the order in
//! which their names were first set, which is the order in which they are
//! handed to the container runtime.

use vstd::prelude::*;

verus! {

/// Whether some pair has the name `key`.
pub open spec fn has_key(pairs: Seq<(Seq<char>, Seq<char>)>, key: Seq<char>) -> bool {
    exists|i: int| 0 <= i < pairs.len() && (#[trigger] pairs[i]).0 == key
}

/// The place of a pair that has the name `key`.
pub open spec fn key_index(pairs: Seq<(Seq<char>, Seq<char>)>, key: Seq<char>) -> int {
    choose|i: int| 0 <= i < pairs.len() && (#[trigger] pairs[i]).0 == key
}

/// The value that stands under the name `key`.
pub open spec fn value_of(pairs: Seq<(Seq<char>, Seq<char>)>, key: Seq<char>) -> Option<
    Seq<char>,
> {
    if has_key(pairs, key) {
        Some(pairs[key_index(pairs, key)].1)
    } else {
        None
    }
}

/// No name occurs twice.
pub open spec fn distinct_keys(pairs: Seq<(Seq<char>, Seq<char>)>) -> bool {
    forall|i: int, j: int|
        0 <= i < j < pairs.len() ==> (#[trigger] pairs[i]).0 != (#[trigger] pairs[j]).0
}

/// The pairs with the value under the name `key` set to `value`: in place
/// where the name is known, at the end where it is new.
pub open spec fn set_value(
    pairs: Seq<(Seq<char>, Seq<char>)>,
    key: Seq<char>,
    value: Seq<char>,
) -> Seq<(Seq<char>, Seq<char>)> {
    if has_key(pairs, key) {
        pairs.update(key_index(pairs, key), (key, value))
    } else {
        pairs.push((key, value))
    }
}

/// `NAME=value`, the form in which the container runtime takes a variable.
pub open spec fn assignment(pair: (Seq<char>, Seq<char>)) -> Seq<char> {
    pair.0 + seq!['='] + pair.1
}

/// The assignments of all pairs, in their order.
pub open spec fn assignments(pairs: Seq<(Seq<char>, Seq<char>)>) -> Seq<Seq<char>> {
    Seq::new(pairs.len(), |i: int| assignment(pairs[i]))
}

/// The texts that a vector of strings holds.
pub open spec fn texts(strings: Seq<String>) -> Seq<Seq<char>> {
    Seq::new(strings.len(), |i: int| strings[i]@)
}

#[derive(Debug, PartialEq, Eq)]
struct EnvVar {
    key: String,
    value: String,
}

/// The environment of a container: names and their values.
#[derive(Debug, PartialEq, Eq)]
pub struct EnvVars {
    entries: Vec<EnvVar>,
}

impl View for EnvVars {
    type V = Seq<(Seq<char>, Seq<char>)>;

    closed spec fn view(&self) -> Seq<(Seq<char>, Seq<char>)> {
        Seq::new(self.entries@.len(), |i: int| (self.entries@[i].key@, self.entries@[i].value@))
    }
}

impl EnvVars {
    #[verifier::type_invariant]
    spec fn no_name_twice(&self) -> bool {
        distinct_keys(self@)
    }

    /// No variables.
    pub fn new() -> (vars: EnvVars)
        ensures
            vars@ == Seq::<(Seq<char>, Seq<char>)>::empty(),
    {
        let vars = EnvVars { entries: Vec::new() };
        assert(vars@ =~= Seq::<(Seq<char>, Seq<char>)>::empty());
        vars
    }

    /// The number of variables.
    pub fn len(&self) -> (count: usize)
        ensures
            count == self@.len(),
    {
        self.entries.len()
    }

    /// Where the variable called `key` stands.
    fn position(&self, key: &String) -> (place: Option<usize>)
        ensures
            distinct_keys(self@),
            place is Some <==> has_key(self@, key@),
            place matches Some(i) ==> i < self@.len() && self@[i as int].0 == key@ && i
                == key_index(self@, key@),
    {
        proof {
            use_type_invariant(self);
        }
        let mut index: usize = 0;
        while index < self.entries.len()
            invariant
                index <= self.entries@.len(),
                self@.len() == self.entries@.len(),
                distinct_keys(self@),
                forall|j: int| 0 <= j < index ==> (#[trigger] self@[j]).0 != key@,
            decreases self.entries@.len() - index,
        {
            if self.entries[index].key == *key {
                assert(self@[index as int].0 == key@);
                return Some(index);
            }
            index = index + 1;
        }
        None
    }

    /// The value of the variable called `key`.
    pub fn get(&self, key: &str) -> (found: Option<&String>)
        ensures
            distinct_keys(self@),
            found is Some <==> has_key(self@, key@),
            found matches Some(value) ==> Some(value@) == value_of(self@, key@),
    {
        let name = String::from_str(key);
        match self.position(&name) {
            Some(index) => {
                assert(self@[index as int].1 == self.entries@[index as int].value@);
                Some(&self.entries[index].value)
            },
            None => None,
        }
    }

    /// These variables with the one called `key` set to `value`: in place
    /// where the name is known, at the end where it is new.
    pub fn with(self, key: String, value: String) -> (vars: EnvVars)
        ensures
            vars@ == set_value(self@, key@, value@),
            distinct_keys(vars@),
    {
        let place = self.position(&key);
        let ghost pair = (key@, value@);
        let mut entries = self.entries;
        match place {
            Some(index) => {
                entries.set(index, EnvVar { key, value });
            },
            None => {
                entries.push(EnvVar { key, value });
            },
        }
        let ghost pairs = Seq::new(entries@.len(), |i: int| (entries@[i].key@, entries@[i].value@));
        proof {
            if place is Some {
                assert(pairs =~= self@.update(place->0 as int, pair));
            } else {
                assert(pairs =~= self@.push(pair));
            }
            assert(distinct_keys(pairs));
        }
        let vars = EnvVars { entries };
        assert(vars@ =~= pairs);
        vars
    }

    /// The variables as `NAME=value` texts, in their order.
    pub fn to_assignments(&self) -> (lines: Vec<String>)
        ensures
            texts(lines@) == assignments(self@),
    {
        let mut lines: Vec<String> = Vec::new();
        let mut index: usize = 0;
        while index < self.entries.len()
            invariant
                index <= self.entries@.len(),
                self@.len() == self.entries@.len(),
                lines@.len() == index,
                forall|j: int| 0 <= j < index ==> (#[trigger] lines@[j])@ == assignment(self@[j]),
            decreases self.entries@.len() - index,
        {
            let entry = &self.entries[index];
            let mut line = entry.key.clone();
            line.append("=");
            line.append(entry.value.as_str());
            proof {
                reveal_strlit("=");
            }
            assert(line@ =~= assignment(self@[index as int]));
            lines.push(line);
            index = index + 1;
        }
        assert(texts(lines@) =~= assignments(self@));
        lines
    }
}

/// Setting a variable makes it the value of its name, leaves every other
/// name with the value it had, and keeps each name once: the number of
/// variables grows by one where the name is new, and not at all where it
/// is known.
pub proof fn law_set_then_get(
    pairs: Seq<(Seq<char>, Seq<char>)>,
    key: Seq<char>,
    value: Seq<char>,
    other: Seq<char>,
)
    requires
        distinct_keys(pairs),
    ensures
        distinct_keys(set_value(pairs, key, value)),
        value_of(set_value(pairs, key, value), key) == Some(value),
        other != key ==> value_of(set_value(pairs, key, value), other) == value_of(pairs, other),
        set_value(pairs, key, value).len() == (if has_key(pairs, key) {
            pairs.len()
        } else {
            pairs.len() + 1
        }),
{
    let set = set_value(pairs, key, value);
    let place = if has_key(pairs, key) {
        key_index(pairs, key)
    } else {
        pairs.len() as int
    };
    assert(set[place] == (key, value));
    assert(forall|i: int| 0 <= i < pairs.len() && i != place ==> set[i] == pairs[i]);
    assert(distinct_keys(set));
    assert(has_key(set, key));
    assert(key_index(set, key) == place);
    if other != key {
        if has_key(pairs, other) {
            let at = key_index(pairs, other);
            assert(set[at] == pairs[at]);
            assert(has_key(set, other));
            assert(key_index(set, other) == at);
        } else if has_key(set, other) {
            let at = key_index(set, other);
            assert(pairs[at] == set[at]);
        }
    }
}

} // verus!
