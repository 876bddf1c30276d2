//! Environment variables of a command.
use vstd::prelude::*;

use super::execution_error::ExecutionError;
use crate::text::{
    byte_len, char_is_ascii_alnum, char_is_ascii_letter, chars_of, comes_before, contains_char,
    copy_text, is_ascii_alnum, is_ascii_letter, lemma_text_before_irreflexive,
    lemma_text_before_total, lemma_text_before_transitive, text_before, text_eq, utf8_len,
};

verus! {

broadcast use vstd::seq::group_seq_axioms;

/// An environment value. It is not shown anywhere: its textual form hides it, and only `expose`
/// gives the value.
#[derive(PartialEq, Eq)]
pub struct SecretString(String);

impl View for SecretString {
    type V = Seq<char>;

    closed spec fn view(&self) -> Seq<char> {
        self.0@
    }
}

impl SecretString {
    #[verifier::type_invariant]
    spec fn wf(self) -> bool {
        !self.0@.contains('\0')
    }

    /// A value without NUL.
    pub fn new(value: String) -> (r: Result<SecretString, ExecutionError>)
        ensures
            match r {
                Ok(secret) => !value@.contains('\0') && secret@ == value@,
                Err(error) => value@.contains('\0') && error == ExecutionError::ContainsNul(
                    "environment value",
                ),
            },
    {
        if contains_char(value.as_str(), '\0') {
            return Err(ExecutionError::ContainsNul("environment value"));
        }
        Ok(SecretString(value))
    }

    /// The value.
    pub fn expose(&self) -> (r: &str)
        ensures
            r@ == self@,
            !r@.contains('\0'),
    {
        proof {
            use_type_invariant(self);
        }
        self.0.as_str()
    }

    /// What is shown in place of the value.
    pub fn to_string(&self) -> (text: String)
        ensures
            text@ == "[REDACTED]"@,
    {
        "[REDACTED]".to_owned()
    }
}

impl Clone for SecretString {
    fn clone(&self) -> (r: SecretString)
        ensures
            r@ == self@,
    {
        proof {
            use_type_invariant(self);
        }
        SecretString(self.0.clone())
    }
}

/// The name is a letter or an underscore, followed by letters, digits and underscores.
pub open spec fn valid_environment_key(key: Seq<char>) -> bool {
    &&& key.len() > 0
    &&& key[0] == '_' || is_ascii_letter(key[0])
    &&& forall|i: int| 1 <= i < key.len() ==> #[trigger] key[i] == '_' || is_ascii_alnum(key[i])
}

/// Checks the name of an environment variable.
pub fn validate_environment_key(key: &str) -> (r: Result<(), ExecutionError>)
    ensures
        r == if valid_environment_key(key@) {
            Ok::<(), ExecutionError>(())
        } else {
            Err(ExecutionError::InvalidEnvironmentKey)
        },
{
    let chars: Vec<char> = chars_of(key);
    if chars.len() == 0 {
        return Err(ExecutionError::InvalidEnvironmentKey);
    }
    if !(chars[0] == '_' || char_is_ascii_letter(chars[0])) {
        return Err(ExecutionError::InvalidEnvironmentKey);
    }
    let mut index: usize = 1;
    while index < chars.len()
        invariant
            1 <= index <= chars.len(),
            chars@ == key@,
            forall|i: int|
                1 <= i < index ==> #[trigger] key@[i] == '_' || is_ascii_alnum(key@[i]),
        decreases chars.len() - index,
    {
        if !(chars[index] == '_' || char_is_ascii_alnum(chars[index])) {
            assert(!(key@[index as int] == '_' || is_ascii_alnum(key@[index as int])));
            return Err(ExecutionError::InvalidEnvironmentKey);
        }
        index += 1;
    }
    Ok(())
}

/// Names with their values.
pub type Entries = Seq<(Seq<char>, Seq<char>)>;

/// The names come in order, each once.
pub open spec fn sorted_entries(entries: Entries) -> bool {
    forall|i: int, j: int|
        0 <= i < j < entries.len() ==> text_before(#[trigger] entries[i].0, #[trigger] entries[j].0)
}

/// `key` is one of the names.
pub open spec fn has_key(entries: Entries, key: Seq<char>) -> bool {
    exists|i: int| 0 <= i < entries.len() && #[trigger] entries[i].0 == key
}

/// The values by name.
pub open spec fn entries_map(entries: Entries) -> Map<Seq<char>, Seq<char>>
    decreases entries.len(),
{
    if entries.len() == 0 {
        Map::empty()
    } else {
        entries_map(entries.drop_last()).insert(entries.last().0, entries.last().1)
    }
}

/// What a list of assignments gives: the values by name, a later assignment winning over an
/// earlier one, or what is wrong with the first bad assignment.
pub open spec fn assigned(pairs: Entries) -> Result<Map<Seq<char>, Seq<char>>, ExecutionError>
    decreases pairs.len(),
{
    if pairs.len() == 0 {
        Ok(Map::empty())
    } else {
        let (key, value) = pairs.last();
        match assigned(pairs.drop_last()) {
            Err(error) => Err(error),
            Ok(values) => if !valid_environment_key(key) {
                Err(ExecutionError::InvalidEnvironmentKey)
            } else if value.contains('\0') {
                Err(ExecutionError::ContainsNul("environment value"))
            } else {
                Ok(values.insert(key, value))
            },
        }
    }
}

/// The total of names and values in bytes, with two more for each pair.
pub open spec fn entries_size(entries: Entries) -> int
    decreases entries.len(),
{
    if entries.len() == 0 {
        0
    } else {
        entries_size(entries.drop_last()) + utf8_len(entries.last().0) + utf8_len(entries.last().1)
            + 2
    }
}

/// `value`, or the largest `usize` where it exceeds that.
pub open spec fn capped(value: int) -> int {
    if value > usize::MAX {
        usize::MAX as int
    } else {
        value
    }
}

/// Pairs of texts as character sequences.
pub open spec fn pairs_of(pairs: Seq<(String, String)>) -> Entries {
    entries_of(pairs)
}

proof fn lemma_map_contains(entries: Entries, key: Seq<char>)
    ensures
        entries_map(entries).contains_key(key) == has_key(entries, key),
    decreases entries.len(),
{
    if entries.len() > 0 {
        let init = entries.drop_last();
        lemma_map_contains(init, key);
        if has_key(init, key) {
            let i = choose|i: int| 0 <= i < init.len() && #[trigger] init[i].0 == key;
            assert(entries[i].0 == key);
        }
        if has_key(entries, key) && entries.last().0 != key {
            let i = choose|i: int| 0 <= i < entries.len() && #[trigger] entries[i].0 == key;
            assert(init[i].0 == key);
        }
        if entries.last().0 == key {
            assert(entries[entries.len() - 1].0 == key);
        }
    }
}

proof fn lemma_sorted_distinct(entries: Entries, i: int, j: int)
    requires
        sorted_entries(entries),
        0 <= i < entries.len(),
        0 <= j < entries.len(),
        entries[i].0 == entries[j].0,
    ensures
        i == j,
{
    lemma_text_before_irreflexive(entries[i].0);
    if i < j {
        assert(text_before(entries[i].0, entries[j].0));
    } else if j < i {
        assert(text_before(entries[j].0, entries[i].0));
    }
}

proof fn lemma_map_value(entries: Entries, i: int)
    requires
        sorted_entries(entries),
        0 <= i < entries.len(),
    ensures
        entries_map(entries).contains_key(entries[i].0),
        entries_map(entries)[entries[i].0] == entries[i].1,
    decreases entries.len(),
{
    lemma_map_contains(entries, entries[i].0);
    assert(has_key(entries, entries[i].0));
    if i < entries.len() - 1 {
        let init = entries.drop_last();
        assert(sorted_entries(init));
        lemma_map_value(init, i);
        if entries.last().0 == entries[i].0 {
            lemma_sorted_distinct(entries, i, entries.len() - 1);
        }
    }
}

/// A map that agrees with sorted entries is their map.
proof fn lemma_represents(entries: Entries, values: Map<Seq<char>, Seq<char>>)
    requires
        sorted_entries(entries),
        forall|i: int|
            0 <= i < entries.len() ==> values.contains_key(#[trigger] entries[i].0)
                && values[entries[i].0] == entries[i].1,
        forall|key: Seq<char>| #[trigger] values.contains_key(key) ==> has_key(entries, key),
    ensures
        entries_map(entries) == values,
{
    let made = entries_map(entries);
    assert forall|key: Seq<char>| made.contains_key(key) == values.contains_key(key) by {
        lemma_map_contains(entries, key);
    }
    assert forall|key: Seq<char>| made.contains_key(key) implies made[key] == values[key] by {
        lemma_map_contains(entries, key);
        let i = choose|i: int| 0 <= i < entries.len() && #[trigger] entries[i].0 == key;
        lemma_map_value(entries, i);
    }
    assert(made =~= values);
}

/// The last of sorted entries is the same for the same map.
proof fn lemma_same_last(a: Entries, b: Entries)
    requires
        sorted_entries(a),
        sorted_entries(b),
        entries_map(a) == entries_map(b),
        a.len() > 0,
    ensures
        b.len() > 0,
        a.last() == b.last(),
{
    let x = a.last().0;
    lemma_map_value(a, a.len() - 1);
    lemma_map_contains(b, x);
    let j = choose|j: int| 0 <= j < b.len() && #[trigger] b[j].0 == x;
    let y = b.last().0;
    lemma_map_value(b, b.len() - 1);
    lemma_map_contains(a, y);
    let i = choose|i: int| 0 <= i < a.len() && #[trigger] a[i].0 == y;
    if x != y {
        assert(text_before(b[j].0, b[b.len() - 1].0));
        assert(text_before(a[i].0, a[a.len() - 1].0));
        lemma_text_before_transitive(x, y, x);
        lemma_text_before_irreflexive(x);
    }
}

/// The map without its last entry is the map without that name.
proof fn lemma_drop_last_map(entries: Entries)
    requires
        sorted_entries(entries),
        entries.len() > 0,
    ensures
        sorted_entries(entries.drop_last()),
        entries_map(entries.drop_last()) == entries_map(entries).remove(entries.last().0),
{
    let init = entries.drop_last();
    let key = entries.last().0;
    assert(sorted_entries(init));
    lemma_map_contains(init, key);
    if has_key(init, key) {
        let i = choose|i: int| 0 <= i < init.len() && #[trigger] init[i].0 == key;
        assert(entries[i].0 == key);
        lemma_sorted_distinct(entries, i, entries.len() - 1);
    }
    assert(entries_map(init) =~= entries_map(entries).remove(key));
}

/// Sorted entries are determined by their map.
pub proof fn lemma_sorted_entries_unique(a: Entries, b: Entries)
    requires
        sorted_entries(a),
        sorted_entries(b),
        entries_map(a) == entries_map(b),
    ensures
        a == b,
    decreases a.len(),
{
    if a.len() == 0 {
        if b.len() > 0 {
            lemma_map_value(b, 0);
        }
        assert(a =~= b);
    } else {
        lemma_same_last(a, b);
        lemma_drop_last_map(a);
        lemma_drop_last_map(b);
        lemma_sorted_entries_unique(a.drop_last(), b.drop_last());
        assert(a =~= a.drop_last().push(a.last()));
        assert(b =~= b.drop_last().push(b.last()));
    }
}

/// Assigning valid sorted entries in order gives their map.
pub proof fn lemma_assigned_entries(entries: Entries)
    requires
        forall|i: int|
            0 <= i < entries.len() ==> valid_environment_key(#[trigger] entries[i].0)
                && !entries[i].1.contains('\0'),
    ensures
        assigned(entries) == Ok::<Map<Seq<char>, Seq<char>>, ExecutionError>(entries_map(entries)),
    decreases entries.len(),
{
    if entries.len() > 0 {
        let init = entries.drop_last();
        assert forall|i: int| 0 <= i < init.len() implies valid_environment_key(
            #[trigger] init[i].0,
        ) && !init[i].1.contains('\0') by {
            assert(entries[i].0 == init[i].0);
        }
        lemma_assigned_entries(init);
        assert(valid_environment_key(entries[entries.len() - 1].0));
    }
}

/// Environment variables by name. The view lists them in the order of their names.
#[derive(PartialEq, Eq)]
pub struct Environment {
    entries: Vec<(String, SecretString)>,
}

/// Names with their values as character sequences.
pub open spec fn entries_of<V: View<V = Seq<char>>>(entries: Seq<(String, V)>) -> Entries {
    entries.map_values(|entry: (String, V)| (entry.0@, entry.1@))
}

/// What holds of every environment: its names are valid and in order, no value holds a NUL.
pub open spec fn valid_entries(entries: Entries) -> bool {
    &&& sorted_entries(entries)
    &&& forall|i: int|
        0 <= i < entries.len() ==> valid_environment_key(#[trigger] entries[i].0)
            && !entries[i].1.contains('\0')
}

impl View for Environment {
    type V = Entries;

    closed spec fn view(&self) -> Entries {
        entries_of(self.entries@)
    }
}

impl Environment {
    #[verifier::type_invariant]
    pub open spec fn wf(self) -> bool {
        valid_entries(self@)
    }

    /// No variables.
    pub fn empty() -> (r: Environment)
        ensures
            r@ == Seq::<(Seq<char>, Seq<char>)>::empty(),
    {
        let entries: Vec<(String, SecretString)> = Vec::new();
        assert(entries_of(entries@) =~= Seq::<(Seq<char>, Seq<char>)>::empty());
        Environment { entries }
    }

    /// The variables of a list of assignments; a later one wins over an earlier one.
    pub fn from_pairs(pairs: Vec<(String, String)>) -> (r: Result<Environment, ExecutionError>)
        ensures
            match assigned(pairs_of(pairs@)) {
                Ok(values) => r matches Ok(environment) && valid_entries(environment@)
                    && entries_map(environment@) == values,
                Err(error) => r == Err::<Environment, ExecutionError>(error),
            },
    {
        let ghost all = pairs_of(pairs@);
        let mut entries: Vec<(String, SecretString)> = Vec::new();
        let mut index: usize = 0;
        assert(entries_of(entries@) =~= Seq::<(Seq<char>, Seq<char>)>::empty());
        assert(all.take(0) =~= Seq::<(Seq<char>, Seq<char>)>::empty());
        while index < pairs.len()
            invariant
                index <= pairs.len(),
                all == pairs_of(pairs@),
                valid_entries(entries_of(entries@)),
                assigned(all.take(index as int)) == Ok::<
                    Map<Seq<char>, Seq<char>>,
                    ExecutionError,
                >(entries_map(entries_of(entries@))),
            decreases pairs.len() - index,
        {
            let ghost before = all.take(index as int);
            let ghost after = all.take(index + 1);
            proof {
                assert(after.drop_last() =~= before);
                assert(after.last() == (pairs@[index as int].0@, pairs@[index as int].1@));
            }
            let key: String = copy_text(pairs[index].0.as_str());
            let value: String = copy_text(pairs[index].1.as_str());
            match validate_environment_key(key.as_str()) {
                Ok(_) => {},
                Err(error) => {
                    proof {
                        lemma_assigned_error_persists(all, index + 1);
                    }
                    return Err(error);
                },
            }
            let secret: SecretString = match SecretString::new(value) {
                Ok(secret) => secret,
                Err(error) => {
                    proof {
                        lemma_assigned_error_persists(all, index + 1);
                    }
                    return Err(error);
                },
            };
            let ghost kept = entries_of(entries@);
            assign(&mut entries, key, secret);
            proof {
                let entries_now = entries_of(entries@);
                assert forall|i: int| 0 <= i < entries_now.len() implies valid_environment_key(
                    #[trigger] entries_now[i].0,
                ) && !entries_now[i].1.contains('\0') by {
                    if entries_now[i] != (after.last().0, after.last().1) {
                        assert(kept.contains(entries_now[i]));
                        let j = choose|j: int| 0 <= j < kept.len() && kept[j] == entries_now[i];
                        assert(valid_environment_key(kept[j].0));
                    }
                }
            }
            index += 1;
        }
        assert(all.take(all.len() as int) =~= all);
        Ok(Environment { entries })
    }

    /// The names with their values, in the order of the names.
    pub fn iter(&self) -> (r: Vec<(&str, &SecretString)>)
        ensures
            r@.len() == self@.len(),
            forall|i: int|
                0 <= i < r@.len() ==> (#[trigger] r@[i]).0@ == self@[i].0 && r@[i].1@ == self@[i].1,
            valid_entries(self@),
    {
        proof {
            use_type_invariant(self);
        }
        let mut out: Vec<(&str, &SecretString)> = Vec::new();
        let mut index: usize = 0;
        while index < self.entries.len()
            invariant
                index <= self.entries.len(),
                out@.len() == index,
                valid_entries(self@),
                forall|i: int|
                    0 <= i < index ==> (#[trigger] out@[i]).0@ == self@[i].0 && out@[i].1@
                        == self@[i].1,
            decreases self.entries.len() - index,
        {
            out.push((self.entries[index].0.as_str(), &self.entries[index].1));
            index += 1;
        }
        out
    }

    /// The names with copies of their values, in the order of the names.
    pub fn to_pairs(&self) -> (r: Vec<(String, String)>)
        ensures
            pairs_of(r@) == self@,
            valid_entries(self@),
    {
        proof {
            use_type_invariant(self);
        }
        let mut out: Vec<(String, String)> = Vec::new();
        let mut index: usize = 0;
        assert(self@.take(0) =~= pairs_of(out@));
        while index < self.entries.len()
            invariant
                index <= self.entries.len(),
                pairs_of(out@) == self@.take(index as int),
                valid_entries(self@),
            decreases self.entries.len() - index,
        {
            let pair: (String, String) = (
                copy_text(self.entries[index].0.as_str()),
                copy_text(self.entries[index].1.expose()),
            );
            proof {
                assert(pairs_of(out@.push(pair)) =~= pairs_of(out@).push((pair.0@, pair.1@)));
                assert(self@.take(index + 1) =~= self@.take(index as int).push(
                    self@[index as int],
                ));
            }
            out.push(pair);
            index += 1;
        }
        assert(self@.take(self@.len() as int) =~= self@);
        out
    }

    /// The total of names and values in bytes, with two more for each pair.
    pub fn serialized_size(&self) -> (r: usize)
        ensures
            r == capped(entries_size(self@)),
    {
        let mut total: usize = 0;
        let mut index: usize = 0;
        assert(self@.take(0) =~= Seq::<(Seq<char>, Seq<char>)>::empty());
        while index < self.entries.len()
            invariant
                index <= self.entries.len(),
                total == capped(entries_size(self@.take(index as int))),
            decreases self.entries.len() - index,
        {
            proof {
                assert(self@.take(index + 1).drop_last() =~= self@.take(index as int));
                assert(self@.take(index + 1).last() == self@[index as int]);
            }
            total = total.saturating_add(byte_len(self.entries[index].0.as_str()));
            total = total.saturating_add(byte_len(self.entries[index].1.expose()));
            total = total.saturating_add(2);
            index += 1;
        }
        assert(self@.take(self@.len() as int) =~= self@);
        total
    }
}

impl Clone for Environment {
    fn clone(&self) -> (r: Environment)
        ensures
            r@ == self@,
    {
        proof {
            use_type_invariant(self);
        }
        let mut entries: Vec<(String, SecretString)> = Vec::new();
        let mut index: usize = 0;
        assert(entries_of(entries@) =~= self@.take(0));
        while index < self.entries.len()
            invariant
                index <= self.entries.len(),
                entries_of(entries@) == self@.take(index as int),
            decreases self.entries.len() - index,
        {
            let entry: (String, SecretString) = (
                copy_text(self.entries[index].0.as_str()),
                self.entries[index].1.clone(),
            );
            proof {
                assert(entries_of(entries@.push(entry)) =~= entries_of(entries@).push(
                    (entry.0@, entry.1@),
                ));
                assert(self@.take(index + 1) =~= self@.take(index as int).push(
                    self@[index as int],
                ));
            }
            entries.push(entry);
            index += 1;
        }
        assert(self@.take(self@.len() as int) =~= self@);
        Environment { entries }
    }
}

/// What is wrong with a bad assignment is not changed by what follows it.
proof fn lemma_assigned_error_persists(pairs: Entries, len: int)
    requires
        0 <= len <= pairs.len(),
        assigned(pairs.take(len)) is Err,
    ensures
        assigned(pairs) == assigned(pairs.take(len)),
    decreases pairs.len(),
{
    if len == pairs.len() {
        assert(pairs.take(len) =~= pairs);
    } else {
        assert(pairs.drop_last().take(len) =~= pairs.take(len));
        lemma_assigned_error_persists(pairs.drop_last(), len);
    }
}

/// Sets the value of a name in a list that is in the order of the names.
pub fn assign<V: View<V = Seq<char>>>(entries: &mut Vec<(String, V)>, key: String, value: V)
    requires
        sorted_entries(entries_of(old(entries)@)),
    ensures
        sorted_entries(entries_of(final(entries)@)),
        entries_map(entries_of(final(entries)@)) == entries_map(entries_of(old(entries)@)).insert(
            key@,
            value@,
        ),
        forall|i: int|
            0 <= i < final(entries)@.len() ==> {
                ||| #[trigger] entries_of(final(entries)@)[i] == (key@, value@)
                ||| entries_of(old(entries)@).contains(entries_of(final(entries)@)[i])
            },
{
    let ghost before = entries_of(entries@);
    let ghost k = key@;
    let ghost v = value@;
    let mut at: usize = 0;
    while at < entries.len() && comes_before(entries[at].0.as_str(), key.as_str())
        invariant
            at <= entries.len(),
            before == entries_of(entries@),
            k == key@,
            forall|i: int| 0 <= i < at ==> text_before(#[trigger] before[i].0, k),
        decreases entries.len() - at,
    {
        assert(before[at as int].0 == entries@[at as int].0@);
        at += 1;
    }
    proof {
        if at < entries.len() {
            assert(before[at as int].0 == entries@[at as int].0@);
        }
    }
    if at < entries.len() && text_eq(entries[at].0.as_str(), key.as_str()) {
        entries[at] = (key, value);
        let ghost after = entries_of(entries@);
        proof {
            assert(after =~= before.update(at as int, (k, v)));
            assert(before[at as int].0 == k);
            assert forall|i: int, j: int| 0 <= i < j < after.len() implies text_before(
                #[trigger] after[i].0,
                #[trigger] after[j].0,
            ) by {
                assert(text_before(before[i].0, before[j].0));
            }
            assert forall|i: int| 0 <= i < after.len() implies {
                ||| #[trigger] after[i] == (k, v)
                ||| before.contains(after[i])
            } by {
                if i != at {
                    assert(after[i] == before[i]);
                }
            }
        }
    } else {
        entries.insert(at, (key, value));
        let ghost after = entries_of(entries@);
        proof {
            assert(after =~= before.insert(at as int, (k, v)));
            assert forall|i: int| at <= i < before.len() implies text_before(
                k,
                #[trigger] before[i].0,
            ) by {
                lemma_text_before_total(k, before[at as int].0);
                if i > at {
                    assert(text_before(before[at as int].0, before[i].0));
                    lemma_text_before_transitive(k, before[at as int].0, before[i].0);
                }
            }
            assert forall|i: int, j: int| 0 <= i < j < after.len() implies text_before(
                #[trigger] after[i].0,
                #[trigger] after[j].0,
            ) by {
                let oi = if i < at {
                    i
                } else {
                    i - 1
                };
                let oj = if j < at {
                    j
                } else {
                    j - 1
                };
                if i != at && j != at {
                    assert(text_before(before[oi].0, before[oj].0));
                } else if i == at {
                    assert(text_before(k, before[oj].0));
                } else {
                    assert(text_before(before[oi].0, k));
                }
            }
            assert forall|i: int| 0 <= i < after.len() implies {
                ||| #[trigger] after[i] == (k, v)
                ||| before.contains(after[i])
            } by {
                if i < at {
                    assert(after[i] == before[i]);
                } else if i > at {
                    assert(after[i] == before[i - 1]);
                }
            }
        }
    }
    proof {
        let after = entries_of(entries@);
        let values = entries_map(before).insert(k, v);
        assert(after[at as int] == (k, v));
        assert forall|i: int| 0 <= i < after.len() implies values.contains_key(
            #[trigger] after[i].0,
        ) && values[after[i].0] == after[i].1 by {
            if i != at {
                let o = if i < at || after.len() == before.len() {
                    i
                } else {
                    i - 1
                };
                assert(after[i] == before[o]);
                lemma_map_value(before, o);
                if after[i].0 == k {
                    lemma_sorted_distinct(after, i, at as int);
                }
            }
        }
        assert forall|key0: Seq<char>| #[trigger] values.contains_key(key0) implies has_key(
            after,
            key0,
        ) by {
            if key0 == k {
                assert(after[at as int].0 == key0);
            } else {
                lemma_map_contains(before, key0);
                let o = choose|o: int| 0 <= o < before.len() && #[trigger] before[o].0 == key0;
                let i = if o < at || after.len() == before.len() {
                    o
                } else {
                    o + 1
                };
                assert(after[i].0 == key0);
            }
        }
        lemma_represents(after, values);
    }
}

} // verus!
