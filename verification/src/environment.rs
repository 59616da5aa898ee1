//! Environment variables of a server process.

use vstd::prelude::*;
use vstd::std_specs::cmp::PartialEqSpec;

verus! {

/// Environment variables: names, each with a value, and no name twice.
pub struct EnvVars {
    entries: Vec<(String, String)>,
}

/// No name occurs twice.
pub open spec fn distinct(pairs: Seq<(Seq<char>, Seq<char>)>) -> bool {
    forall|i: int, j: int|
        0 <= i < j < pairs.len() ==> (#[trigger] pairs[i]).0 != (#[trigger] pairs[j]).0
}

/// The map from the names to the values.
pub open spec fn map_of(pairs: Seq<(Seq<char>, Seq<char>)>) -> Map<Seq<char>, Seq<char>>
    decreases pairs.len(),
{
    if pairs.len() == 0 {
        Map::empty()
    } else {
        map_of(pairs.drop_last()).insert(pairs.last().0, pairs.last().1)
    }
}

/// Some pair has this name.
pub open spec fn has_name(pairs: Seq<(Seq<char>, Seq<char>)>, name: Seq<char>) -> bool {
    exists|i: int| 0 <= i < pairs.len() && (#[trigger] pairs[i]).0 == name
}

/// The pairs with a value set: in its place, if the name occurs, and last if it
/// does not.
pub open spec fn with_value(
    pairs: Seq<(Seq<char>, Seq<char>)>,
    name: Seq<char>,
    value: Seq<char>,
) -> Seq<(Seq<char>, Seq<char>)> {
    if has_name(pairs, name) {
        pairs.map_values(
            |pair: (Seq<char>, Seq<char>)|
                if pair.0 == name {
                    (name, value)
                } else {
                    pair
                },
        )
    } else {
        pairs.push((name, value))
    }
}

/// The pairs with what stands in the place of a value that is not to be shown.
pub open spec fn shown(
    pairs: Seq<(Seq<char>, Seq<char>)>,
    secret: Seq<Seq<char>>,
) -> Seq<(Seq<char>, Seq<char>)> {
    pairs.map_values(
        |pair: (Seq<char>, Seq<char>)|
            (
                pair.0,
                if secret.contains(pair.0) {
                    "[REDACTED]"@
                } else {
                    pair.1
                },
            ),
    )
}

/// The texts of pairs of strings.
pub open spec fn pair_texts(entries: Seq<(String, String)>) -> Seq<(Seq<char>, Seq<char>)> {
    entries.map_values(|entry: (String, String)| (entry.0@, entry.1@))
}

/// The texts of a list of strings.
pub open spec fn texts(list: Seq<String>) -> Seq<Seq<char>> {
    list.map_values(|s: String| s@)
}

/// Each pair is in the map, and nothing else is.
pub proof fn map_of_entries(pairs: Seq<(Seq<char>, Seq<char>)>)
    requires
        distinct(pairs),
    ensures
        forall|i: int|
            0 <= i < pairs.len() ==> map_of(pairs).contains_key((#[trigger] pairs[i]).0) && map_of(
                pairs,
            )[pairs[i].0] == pairs[i].1,
        forall|k: Seq<char>| #[trigger]
            map_of(pairs).contains_key(k) ==> exists|i: int|
                0 <= i < pairs.len() && (#[trigger] pairs[i]).0 == k,
    decreases pairs.len(),
{
    if pairs.len() > 0 {
        let rest = pairs.drop_last();
        assert(distinct(rest)) by {
            assert forall|i: int, j: int| 0 <= i < j < rest.len() implies (#[trigger] rest[i]).0 != (
            #[trigger] rest[j]).0 by {
                assert(rest[i] == pairs[i] && rest[j] == pairs[j]);
            }
        }
        map_of_entries(rest);
        assert forall|i: int| 0 <= i < pairs.len() implies map_of(pairs).contains_key(
            (#[trigger] pairs[i]).0,
        ) && map_of(pairs)[pairs[i].0] == pairs[i].1 by {
            if i < rest.len() {
                assert(rest[i] == pairs[i]);
                assert(pairs[i].0 != pairs[pairs.len() - 1].0);
            }
        }
        assert forall|k: Seq<char>| #[trigger] map_of(pairs).contains_key(k) implies exists|i: int|
            0 <= i < pairs.len() && (#[trigger] pairs[i]).0 == k by {
            if k == pairs.last().0 {
                assert(pairs[pairs.len() - 1].0 == k);
            } else {
                assert(map_of(rest).contains_key(k));
                let i = choose|i: int| 0 <= i < rest.len() && (#[trigger] rest[i]).0 == k;
                assert(pairs[i].0 == k);
            }
        }
    }
}

impl View for EnvVars {
    type V = Map<Seq<char>, Seq<char>>;

    open spec fn view(&self) -> Map<Seq<char>, Seq<char>> {
        map_of(self.pairs())
    }
}

impl EnvVars {
    /// The variables in the order in which they are kept.
    pub closed spec fn pairs(&self) -> Seq<(Seq<char>, Seq<char>)> {
        pair_texts(self.entries@)
    }

    #[verifier::type_invariant]
    spec fn names_differ(self) -> bool {
        distinct(pair_texts(self.entries@))
    }

    /// No variables.
    pub fn new() -> (r: Self)
        ensures
            r@ == Map::<Seq<char>, Seq<char>>::empty(),
            r.pairs() == Seq::<(Seq<char>, Seq<char>)>::empty(),
    {
        let r = EnvVars { entries: Vec::new() };
        assert(r.pairs() =~= Seq::<(Seq<char>, Seq<char>)>::empty());
        r
    }

    fn position(&self, name: &String) -> (r: Option<usize>)
        ensures
            match r {
                Some(i) => i < self.entries@.len() && self.entries@[i as int].0@ == name@,
                None => forall|i: int|
                    0 <= i < self.entries@.len() ==> (#[trigger] self.entries@[i]).0@ != name@,
            },
    {
        let mut i: usize = 0;
        while i < self.entries.len()
            invariant
                i <= self.entries@.len(),
                forall|j: int| 0 <= j < i ==> (#[trigger] self.entries@[j]).0@ != name@,
            decreases self.entries@.len() - i,
        {
            if self.entries[i].0 == *name {
                return Some(i);
            }
            i = i + 1;
        }
        None
    }

    /// The value of a variable.
    pub fn get(&self, name: &String) -> (r: Option<String>)
        ensures
            match r {
                Some(value) => self@.contains_key(name@) && self@[name@] == value@,
                None => !self@.contains_key(name@),
            },
    {
        proof {
            use_type_invariant(self);
            map_of_entries(self.pairs());
        }
        match self.position(name) {
            Some(i) => {
                assert(self.pairs()[i as int] == (self.entries@[i as int].0@, self.entries@[i as int].1@));
                Some(self.entries[i].1.clone())
            },
            None => {
                assert forall|i: int| 0 <= i < self.pairs().len() implies (
                #[trigger] self.pairs()[i]).0 != name@ by {
                    assert(self.entries@[i].0@ != name@);
                }
                None
            },
        }
    }

    /// Sets a variable and returns the value that it had.
    pub fn insert(&mut self, name: String, value: String) -> (r: Option<String>)
        ensures
            final(self)@ == old(self)@.insert(name@, value@),
            final(self).pairs() == with_value(old(self).pairs(), name@, value@),
            match r {
                Some(previous) => old(self)@.contains_key(name@) && old(self)@[name@] == previous@,
                None => !old(self)@.contains_key(name@),
            },
    {
        proof {
            use_type_invariant(&*self);
            map_of_entries(self.pairs());
        }
        let ghost before = self.pairs();
        let found = self.position(&name);
        let mut entries: Vec<(String, String)> = Vec::new();
        std::mem::swap(&mut entries, &mut self.entries);
        match found {
            Some(i) => {
                let previous = entries[i].1.clone();
                let ghost held = entries@;
                entries.set(i, (name, value));
                let ghost after = pair_texts(entries@);
                proof {
                    assert(before =~= pair_texts(held));
                    assert(after =~= before.update(i as int, (name@, value@)));
                    assert(before[i as int].0 == name@);
                    assert(distinct(after)) by {
                        assert forall|a: int, b: int| 0 <= a < b < after.len() implies (
                        #[trigger] after[a]).0 != (#[trigger] after[b]).0 by {
                            assert(before[a].0 != before[b].0);
                        }
                    }
                    map_of_entries(after);
                    same_names(before, after, name@, value@, i as int);
                    assert(has_name(before, name@));
                    assert(after =~= with_value(before, name@, value@)) by {
                        assert forall|a: int| 0 <= a < before.len() && a != i implies (
                        #[trigger] before[a]).0 != name@ by {
                            assert(before[i as int].0 == name@);
                        }
                    }
                }
                self.entries = entries;
                Some(previous)
            },
            None => {
                let ghost held = entries@;
                entries.push((name, value));
                let ghost after = pair_texts(entries@);
                proof {
                    assert(before =~= pair_texts(held));
                    assert(after =~= before.push((name@, value@)));
                    assert forall|a: int| 0 <= a < before.len() implies (#[trigger] before[a]).0
                        != name@ by {
                        assert(held[a].0@ != name@);
                    }
                    assert(distinct(after)) by {
                        assert forall|a: int, b: int| 0 <= a < b < after.len() implies (
                        #[trigger] after[a]).0 != (#[trigger] after[b]).0 by {
                            if b < before.len() {
                                assert(before[a].0 != before[b].0);
                            } else {
                                assert(before[a].0 != name@);
                            }
                        }
                    }
                    assert(after.drop_last() =~= before);
                }
                self.entries = entries;
                None
            },
        }
    }

    /// The names of the variables, in the order in which they are kept.
    pub fn names(&self) -> (r: Vec<String>)
        ensures
            r@.len() == self.pairs().len(),
            forall|i: int| 0 <= i < r@.len() ==> (#[trigger] r@[i])@ == self.pairs()[i].0,
            distinct(self.pairs()),
    {
        proof {
            use_type_invariant(self);
        }
        let mut r: Vec<String> = Vec::new();
        let mut i: usize = 0;
        while i < self.entries.len()
            invariant
                i <= self.entries@.len(),
                r@.len() == i,
                forall|j: int| 0 <= j < i ==> (#[trigger] r@[j])@ == self.pairs()[j].0,
            decreases self.entries@.len() - i,
        {
            r.push(self.entries[i].0.clone());
            i = i + 1;
        }
        r
    }

    /// The variables as they may be shown: of those in `secret` the value is
    /// replaced.
    pub fn redacted(&self, secret: &Vec<String>) -> (r: Vec<(String, String)>)
        ensures
            pair_texts(r@) == shown(self.pairs(), texts(secret@)),
    {
        let mut r: Vec<(String, String)> = Vec::new();
        let mut i: usize = 0;
        while i < self.entries.len()
            invariant
                i <= self.entries@.len(),
                r@.len() == i,
                forall|j: int|
                    0 <= j < i ==> ((#[trigger] r@[j]).0@, r@[j].1@) == shown(
                        self.pairs(),
                        texts(secret@),
                    )[j],
            decreases self.entries@.len() - i,
        {
            let name = self.entries[i].0.clone();
            let value = if listed(secret, &name) {
                "[REDACTED]".to_string()
            } else {
                self.entries[i].1.clone()
            };
            assert(self.pairs()[i as int] == (self.entries@[i as int].0@, self.entries@[i as int].1@));
            r.push((name, value));
            i = i + 1;
        }
        assert(pair_texts(r@) =~= shown(self.pairs(), texts(secret@)));
        r
    }

    /// Whether every variable has the same value in `other`.
    fn within(&self, other: &EnvVars) -> (r: bool)
        ensures
            r == (forall|k: Seq<char>| #[trigger]
                self@.contains_key(k) ==> other@.contains_key(k) && other@[k] == self@[k]),
    {
        proof {
            use_type_invariant(self);
            map_of_entries(self.pairs());
        }
        let mut i: usize = 0;
        while i < self.entries.len()
            invariant
                i <= self.entries@.len(),
                distinct(self.pairs()),
                forall|j: int|
                    0 <= j < i ==> other@.contains_key((#[trigger] self.pairs()[j]).0)
                        && other@[self.pairs()[j].0] == self.pairs()[j].1,
            decreases self.entries@.len() - i,
        {
            let same = match other.get(&self.entries[i].0) {
                Some(value) => value == self.entries[i].1,
                None => false,
            };
            assert(self.pairs()[i as int] == (self.entries@[i as int].0@, self.entries@[i as int].1@));
            if !same {
                proof {
                    map_of_entries(self.pairs());
                    assert(self@.contains_key(self.pairs()[i as int].0));
                }
                return false;
            }
            i = i + 1;
        }
        assert forall|k: Seq<char>| #[trigger] self@.contains_key(k) implies other@.contains_key(k)
            && other@[k] == self@[k] by {
            let j = choose|j: int| 0 <= j < self.pairs().len() && (#[trigger] self.pairs()[j]).0 == k;
            assert(self.pairs()[j].0 == k);
        }
        true
    }
}

proof fn same_names(
    before: Seq<(Seq<char>, Seq<char>)>,
    after: Seq<(Seq<char>, Seq<char>)>,
    name: Seq<char>,
    value: Seq<char>,
    i: int,
)
    requires
        distinct(before),
        distinct(after),
        0 <= i < before.len(),
        before[i].0 == name,
        after == before.update(i, (name, value)),
    ensures
        map_of(after) == map_of(before).insert(name, value),
{
    map_of_entries(before);
    map_of_entries(after);
    let expected = map_of(before).insert(name, value);
    assert forall|k: Seq<char>| #[trigger] map_of(after).contains_key(k) implies
        expected.contains_key(k) && expected[k] == map_of(after)[k] by {
        let j = choose|j: int| 0 <= j < after.len() && (#[trigger] after[j]).0 == k;
        assert(before[j].0 == k);
        if j != i {
            assert(after[j] == before[j]);
            assert(after[j].0 != after[i].0);
        } else {
            assert(after[i] == (name, value));
        }
    }
    assert forall|k: Seq<char>| #[trigger] expected.contains_key(k) implies map_of(
        after,
    ).contains_key(k) by {
        if k == name {
            assert(after[i].0 == name);
        } else {
            let j = choose|j: int| 0 <= j < before.len() && (#[trigger] before[j]).0 == k;
            assert(after[j].0 == k);
        }
    }
    assert(map_of(after) =~= expected);
}

/// Whether a text is on a list.
pub fn listed(list: &Vec<String>, s: &String) -> (r: bool)
    ensures
        r == texts(list@).contains(s@),
{
    let mut i: usize = 0;
    while i < list.len()
        invariant
            i <= list@.len(),
            forall|j: int| 0 <= j < i ==> (#[trigger] texts(list@)[j]) != s@,
        decreases list@.len() - i,
    {
        if list[i] == *s {
            assert(texts(list@)[i as int] == s@);
            return true;
        }
        i = i + 1;
    }
    false
}

impl Clone for EnvVars {
    fn clone(&self) -> (r: Self)
        ensures
            r.pairs() == self.pairs(),
            r@ == self@,
    {
        proof {
            use_type_invariant(self);
        }
        let mut entries: Vec<(String, String)> = Vec::new();
        let mut i: usize = 0;
        while i < self.entries.len()
            invariant
                i <= self.entries@.len(),
                entries@.len() == i,
                forall|j: int| 0 <= j < i ==> #[trigger] entries@[j] == self.entries@[j],
            decreases self.entries@.len() - i,
        {
            entries.push((self.entries[i].0.clone(), self.entries[i].1.clone()));
            i = i + 1;
        }
        assert(entries@ =~= self.entries@);
        EnvVars { entries }
    }
}

impl PartialEq for EnvVars {
    fn eq(&self, other: &Self) -> (r: bool) {
        let r = self.within(other) && other.within(self);
        assert(r ==> self@ =~= other@);
        r
    }
}

impl vstd::std_specs::cmp::PartialEqSpecImpl for EnvVars {
    open spec fn obeys_eq_spec() -> bool {
        true
    }

    open spec fn eq_spec(&self, other: &Self) -> bool {
        self@ == other@
    }
}

impl Eq for EnvVars {

}

/// Nothing of a secret value can be told from what is shown: variables that
/// differ in the values of secret names alone are shown alike.
pub proof fn secrets_do_not_show(
    a: Seq<(Seq<char>, Seq<char>)>,
    b: Seq<(Seq<char>, Seq<char>)>,
    secret: Seq<Seq<char>>,
)
    requires
        a.len() == b.len(),
        forall|i: int|
            0 <= i < a.len() ==> (#[trigger] a[i]).0 == b[i].0 && (secret.contains(a[i].0) || a[i].1
                == b[i].1),
    ensures
        shown(a, secret) == shown(b, secret),
{
    assert forall|i: int| 0 <= i < a.len() implies shown(a, secret)[i] == shown(b, secret)[i] by {
        assert(a[i].0 == b[i].0);
    }
    assert(shown(a, secret) =~= shown(b, secret));
}

/// A list of strings has the texts of its strings, one for one, and pairs of
/// strings have theirs.
pub proof fn texts_are_one_for_one(list: Seq<String>, entries: Seq<(String, String)>)
    ensures
        texts(list).len() == list.len(),
        forall|i: int| 0 <= i < list.len() ==> #[trigger] texts(list)[i] == list[i]@,
        pair_texts(entries).len() == entries.len(),
        forall|i: int|
            0 <= i < entries.len() ==> (#[trigger] pair_texts(entries)[i]).0 == entries[i].0@
                && pair_texts(entries)[i].1 == entries[i].1@,
{
}

/// Every variable is shown, in order and under its name: with its whole value if
/// it is not secret, and with a fixed text in its place if it is.
pub proof fn variables_are_shown_but_for_secrets(
    pairs: Seq<(Seq<char>, Seq<char>)>,
    secret: Seq<Seq<char>>,
)
    ensures
        shown(pairs, secret).len() == pairs.len(),
        forall|i: int|
            0 <= i < pairs.len() ==> (#[trigger] shown(pairs, secret)[i]).0 == pairs[i].0 && (
            !secret.contains(pairs[i].0) ==> shown(pairs, secret)[i].1 == pairs[i].1) && (
            secret.contains(pairs[i].0) ==> shown(pairs, secret)[i].1 == "[REDACTED]"@),
{
}

/// Setting a variable keeps the order of the others and what they are; a new
/// one comes last.
pub proof fn setting_keeps_the_others(
    pairs: Seq<(Seq<char>, Seq<char>)>,
    name: Seq<char>,
    value: Seq<char>,
)
    ensures
        ({
            let after = with_value(pairs, name, value);
            &&& forall|i: int|
                0 <= i < pairs.len() ==> (#[trigger] after[i]).0 == pairs[i].0 && (pairs[i].0
                    != name ==> after[i].1 == pairs[i].1) && (pairs[i].0 == name ==> after[i].1
                    == value)
            &&& after.len() == pairs.len() || (after.len() == pairs.len() + 1 && after.last() == (
                name,
                value,
            ))
            &&& after.len() == pairs.len() <==> exists|i: int|
                0 <= i < pairs.len() && (#[trigger] pairs[i]).0 == name
        }),
{
    let after = with_value(pairs, name, value);
    assert forall|i: int| 0 <= i < pairs.len() implies (#[trigger] after[i]).0 == pairs[i].0 && (
    pairs[i].0 != name ==> after[i].1 == pairs[i].1) && (pairs[i].0 == name ==> after[i].1
        == value) by {
        if !has_name(pairs, name) {
            assert(pairs[i].0 != name);
        }
    }
}

/// Variables are equal exactly if every name has the same value in both, in
/// whatever order they are kept.
pub proof fn equal_variables_have_equal_values(a: EnvVars, b: EnvVars)
    ensures
        a.eq_spec(&b) <==> (forall|k: Seq<char>|
            (#[trigger] a@.contains_key(k) <==> b@.contains_key(k)) && (a@.contains_key(k) ==> a@[k]
                == b@[k])),
{
    if forall|k: Seq<char>|
        (#[trigger] a@.contains_key(k) <==> b@.contains_key(k)) && (a@.contains_key(k) ==> a@[k]
            == b@[k]) {
        assert(a@ =~= b@);
    }
}

} // verus!
