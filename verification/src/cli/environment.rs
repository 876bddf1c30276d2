//! The environment of a submitted command.
use vstd::prelude::*;

use crate::domain::environment::{
    assign, assigned, entries_map, has_key, lemma_sorted_entries_unique, pairs_of, sorted_entries,
    Entries, Environment,
};
use crate::domain::execution_error::execution_error_message;
use crate::text::{
    contains_char, copy_text, decimal, lines, push_decimal, push_text, split_at, split_lines,
    split_once, starts_with, text_eq, text_starts_with, texts,
};

verus! {

broadcast use vstd::seq::group_seq_axioms;

/// The largest environment file, in bytes.
pub const MAX_ENV_FILE_BYTES: u64 = 1_048_576;

// ---------------------------------------------------------------------------------------------
// Assignments
// ---------------------------------------------------------------------------------------------
/// The name and the value of an assignment `KEY=VALUE` with a name that is not empty.
pub open spec fn assignment(text: Seq<char>) -> Option<(Seq<char>, Seq<char>)> {
    match split_at(text, '=') {
        Some((key, value)) => if key.len() > 0 {
            Some((key, value))
        } else {
            None
        },
        None => None,
    }
}

/// The name and the value of an assignment.
pub fn split_assignment(value: &str) -> (r: Result<(String, String), String>)
    ensures
        match r {
            Ok((key, text)) => assignment(value@) == Some((key@, text@)),
            Err(error) => assignment(value@) is None && error@
                == "environment value must use KEY=VALUE"@,
        },
{
    match split_once(value, '=') {
        Some((key, text)) => {
            if key.as_str().unicode_len() == 0 {
                Err("environment value must use KEY=VALUE".to_owned())
            } else {
                Ok((key, text))
            }
        },
        None => Err("environment value must use KEY=VALUE".to_owned()),
    }
}

/// The variable is handed on although the environment is not captured.
pub open spec fn is_basic(key: Seq<char>) -> bool {
    ||| key == "HOME"@
    ||| key == "USER"@
    ||| key == "LOGNAME"@
    ||| key == "PATH"@
    ||| key == "LANG"@
    ||| key == "TMPDIR"@
    ||| starts_with(key, "LC_"@)
}

/// Whether the variable is handed on although the environment is not captured.
pub fn is_basic_variable(key: &str) -> (r: bool)
    ensures
        r == is_basic(key@),
{
    text_eq(key, "HOME") || text_eq(key, "USER") || text_eq(key, "LOGNAME") || text_eq(key, "PATH")
        || text_eq(key, "LANG") || text_eq(key, "TMPDIR") || text_starts_with(key, "LC_")
}

/// The variables of the submitter that are handed on: all of them, or the basic ones.
pub open spec fn inherited(variables: Entries, capture: bool) -> Entries
    decreases variables.len(),
{
    if variables.len() == 0 {
        Seq::empty()
    } else {
        let rest = inherited(variables.drop_last(), capture);
        if capture || is_basic(variables.last().0) {
            rest.push(variables.last())
        } else {
            rest
        }
    }
}

/// The assignments given one by one, or nothing where one of them is malformed.
pub open spec fn given(assignments: Seq<Seq<char>>) -> Option<Entries>
    decreases assignments.len(),
{
    if assignments.len() == 0 {
        Some(Seq::empty())
    } else {
        match (given(assignments.drop_last()), assignment(assignments.last())) {
            (Some(rest), Some(pair)) => Some(rest.push(pair)),
            _ => None,
        }
    }
}

/// The result is the environment with the given values, a later one winning over an earlier one.
pub open spec fn environment_of(pairs: Entries, r: Result<Environment, Seq<char>>) -> bool {
    exists|values: Entries|
        {
            &&& #[trigger] sorted_entries(values)
            &&& entries_map(values) == entries_map(pairs)
            &&& match assigned(values) {
                Err(error) => r == Err::<Environment, Seq<char>>(execution_error_message(error)),
                Ok(_) => r matches Ok(environment) && environment@ == values,
            }
        }
}

/// The result with its message as a character sequence.
pub open spec fn outcome_of<T>(r: Result<T, String>) -> Result<T, Seq<char>> {
    match r {
        Ok(value) => Ok(value),
        Err(error) => Err(error@),
    }
}

/// Values of variables, a later one winning over an earlier one.
fn assign_all(values: &mut Vec<(String, String)>, pairs: Vec<(String, String)>)
    requires
        sorted_entries(pairs_of(old(values)@)),
    ensures
        sorted_entries(pairs_of(final(values)@)),
        forall|before: Entries|
            entries_map(pairs_of(old(values)@)) == entries_map(before) ==> entries_map(
                pairs_of(final(values)@),
            ) == entries_map(#[trigger] (before + pairs_of(pairs@))),
{
    let ghost start = entries_map(pairs_of(values@));
    let ghost all = pairs_of(pairs@);
    let ghost mut seen: int = 0;
    proof {
        assert forall|before: Entries| start == entries_map(before) implies start == entries_map(
            #[trigger] (before + all.take(0)),
        ) by {
            assert(before + all.take(0) =~= before);
        }
    }
    for pair in iter: pairs
        invariant
            iter.seq() == pairs@,
            seen == iter.index(),
            all == pairs_of(pairs@),
            sorted_entries(pairs_of(values@)),
            forall|before: Entries|
                start == entries_map(before) ==> entries_map(pairs_of(values@)) == entries_map(
                    #[trigger] (before + all.take(seen)),
                ),
    {
        let ghost earlier = entries_map(pairs_of(values@));
        let (key, value): (String, String) = pair;
        assert(all[seen] == (key@, value@));
        assign(values, key, value);
        proof {
            assert forall|before: Entries| start == entries_map(before) implies entries_map(
                pairs_of(values@),
            ) == entries_map(#[trigger] (before + all.take(seen + 1))) by {
                let longer = before + all.take(seen + 1);
                let shorter = before + all.take(seen);
                assert(longer.drop_last() =~= shorter);
                assert(longer.last() == (key@, value@));
                assert(earlier == entries_map(shorter));
            }
            seen = seen + 1;
        }
    }
    assert(all.take(all.len() as int) =~= all);
}

/// The environment with the given values.
fn finish_environment(values: Vec<(String, String)>) -> (r: Result<Environment, String>)
    requires
        sorted_entries(pairs_of(values@)),
    ensures
        match assigned(pairs_of(values@)) {
            Err(error) => r matches Err(message) && message@ == execution_error_message(error),
            Ok(_) => r matches Ok(environment) && environment@ == pairs_of(values@),
        },
{
    let ghost pairs = pairs_of(values@);
    match Environment::from_pairs(values) {
        Ok(environment) => {
            proof {
                lemma_assigned_is_map(pairs);
                lemma_sorted_entries_unique(environment@, pairs);
            }
            Ok(environment)
        },
        Err(error) => Err(error.to_string()),
    }
}

/// Assignments without a fault give the values by name.
proof fn lemma_assigned_is_map(pairs: Entries)
    ensures
        assigned(pairs) matches Ok(values) ==> values == entries_map(pairs),
    decreases pairs.len(),
{
    if pairs.len() > 0 {
        lemma_assigned_is_map(pairs.drop_last());
    }
}

// ---------------------------------------------------------------------------------------------
// The environment file
// ---------------------------------------------------------------------------------------------
/// Whether a file may be read as an environment file.
pub fn is_env_file(is_file: bool, length: u64) -> (r: bool)
    ensures
        r == (is_file && length <= MAX_ENV_FILE_BYTES),
{
    is_file && length <= MAX_ENV_FILE_BYTES
}

/// The assignments of the lines of a file. Empty lines and lines that start with `#` do not count,
/// and no name may be assigned twice. A line is named by its number in a message.
pub open spec fn file_pairs(file: Seq<Seq<char>>) -> Result<Entries, Seq<char>>
    decreases file.len(),
{
    if file.len() == 0 {
        Ok(Seq::empty())
    } else {
        let line = file.last();
        match file_pairs(file.drop_last()) {
            Err(error) => Err(error),
            Ok(pairs) => if line.len() == 0 || line[0] == '#' {
                Ok(pairs)
            } else {
                match assignment(line) {
                    None => Err(
                        "line "@ + decimal(file.len()) + ": "@
                            + "environment value must use KEY=VALUE"@,
                    ),
                    Some((key, value)) => if has_key(pairs, key) {
                        Err("line "@ + decimal(file.len()) + " repeats environment key "@ + key)
                    } else {
                        Ok(pairs.push((key, value)))
                    },
                }
            },
        }
    }
}

/// The assignments of the text of an environment file, which have to make an environment.
pub open spec fn env_file_outcome(contents: Seq<char>, r: Result<Entries, Seq<char>>) -> bool {
    if contents.contains('\0') {
        r == Err::<Entries, Seq<char>>("environment file cannot contain NUL"@)
    } else {
        match file_pairs(lines(contents)) {
            Err(error) => r == Err::<Entries, Seq<char>>(error),
            Ok(pairs) => exists|checked: Result<Environment, Seq<char>>|
                {
                    &&& #[trigger] environment_of(pairs, checked)
                    &&& match checked {
                        Ok(_) => r == Ok::<Entries, Seq<char>>(pairs),
                        Err(error) => r == Err::<Entries, Seq<char>>(error),
                    }
                },
        }
    }
}

fn numbered(number: usize, rest: &str, key: &str) -> (r: String)
    ensures
        r@ == "line "@ + decimal(number as nat) + rest@ + key@,
{
    let mut out: String = "line ".to_owned();
    push_decimal(&mut out, number as u64);
    push_text(&mut out, rest);
    push_text(&mut out, key);
    out
}

fn pairs_hold(pairs: &Vec<(String, String)>, key: &str) -> (r: bool)
    ensures
        r == has_key(pairs_of(pairs@), key@),
{
    let mut index: usize = 0;
    while index < pairs.len()
        invariant
            index <= pairs@.len(),
            forall|i: int| 0 <= i < index ==> (#[trigger] pairs_of(pairs@)[i]).0 != key@,
        decreases pairs@.len() - index,
    {
        assert(pairs_of(pairs@)[index as int].0 == pairs@[index as int].0@);
        if text_eq(pairs[index].0.as_str(), key) {
            return true;
        }
        index += 1;
    }
    false
}

fn file_pairs_of(file: &Vec<String>) -> (r: Result<Vec<(String, String)>, String>)
    ensures
        match file_pairs(texts(file@)) {
            Err(error) => r matches Err(message) && message@ == error,
            Ok(pairs) => r matches Ok(list) && pairs_of(list@) == pairs,
        },
{
    let ghost all = texts(file@);
    let mut pairs: Vec<(String, String)> = Vec::new();
    let mut index: usize = 0;
    assert(all.take(0) =~= Seq::<Seq<char>>::empty());
    assert(pairs_of(pairs@) =~= Seq::<(Seq<char>, Seq<char>)>::empty());
    while index < file.len()
        invariant
            index <= file@.len(),
            all == texts(file@),
            file_pairs(all.take(index as int)) == Ok::<Entries, Seq<char>>(pairs_of(pairs@)),
        decreases file@.len() - index,
    {
        let line: &str = file[index].as_str();
        let ghost next = all.take(index + 1);
        proof {
            assert(next.drop_last() =~= all.take(index as int));
            assert(next.last() == line@);
            lemma_file_error_persists(all, index + 1);
        }
        let comment: bool = line.unicode_len() == 0 || line.get_char(0) == '#';
        if !comment {
            match split_assignment(line) {
                Ok((key, value)) => {
                    if pairs_hold(&pairs, key.as_str()) {
                        return Err(
                            numbered(index + 1, " repeats environment key ", key.as_str()),
                        );
                    }
                    let ghost before = pairs@;
                    let ghost pair = (key@, value@);
                    pairs.push((key, value));
                    assert(pairs_of(pairs@) =~= pairs_of(before).push(pair));
                },
                Err(error) => {
                    return Err(numbered(index + 1, ": ", error.as_str()));
                },
            }
        }
        index += 1;
    }
    assert(all.take(all.len() as int) =~= all);
    Ok(pairs)
}

/// What is wrong with a line is not changed by the lines that follow.
proof fn lemma_file_error_persists(file: Seq<Seq<char>>, len: int)
    requires
        0 <= len <= file.len(),
    ensures
        file_pairs(file.take(len)) is Err ==> file_pairs(file) == file_pairs(file.take(len)),
    decreases file.len(),
{
    if len == file.len() {
        assert(file.take(len) =~= file);
    } else {
        assert(file.drop_last().take(len) =~= file.take(len));
        lemma_file_error_persists(file.drop_last(), len);
    }
}

/// The entries of a list of pairs.
pub open spec fn pairs_outcome(r: Result<Vec<(String, String)>, String>) -> Result<Entries, Seq<char>> {
    match r {
        Ok(pairs) => Ok(pairs_of(pairs@)),
        Err(error) => Err(error@),
    }
}

fn copy_pairs(pairs: &Vec<(String, String)>) -> (r: Vec<(String, String)>)
    ensures
        pairs_of(r@) == pairs_of(pairs@),
{
    let mut out: Vec<(String, String)> = Vec::new();
    let mut index: usize = 0;
    assert(pairs_of(out@) =~= pairs_of(pairs@).take(0));
    while index < pairs.len()
        invariant
            index <= pairs@.len(),
            pairs_of(out@) == pairs_of(pairs@).take(index as int),
        decreases pairs@.len() - index,
    {
        let pair: (String, String) = (
            copy_text(pairs[index].0.as_str()),
            copy_text(pairs[index].1.as_str()),
        );
        proof {
            assert(pairs_of(out@.push(pair)) =~= pairs_of(out@).push((pair.0@, pair.1@)));
            assert(pairs_of(pairs@).take(index + 1) =~= pairs_of(pairs@).take(index as int).push(
                pairs_of(pairs@)[index as int],
            ));
        }
        out.push(pair);
        index += 1;
    }
    assert(pairs_of(pairs@).take(pairs@.len() as int) =~= pairs_of(pairs@));
    out
}

/// Reads the assignments of the text of an environment file.
pub fn parse_env_file(contents: &str) -> (r: Result<Vec<(String, String)>, String>)
    ensures
        env_file_outcome(contents@, pairs_outcome(r)),
{
    if contains_char(contents, '\0') {
        return Err("environment file cannot contain NUL".to_owned());
    }
    let file: Vec<String> = split_lines(contents);
    let pairs: Vec<(String, String)> = match file_pairs_of(&file) {
        Ok(pairs) => pairs,
        Err(error) => {
            return Err(error);
        },
    };
    let mut values: Vec<(String, String)> = Vec::new();
    let ghost none = Seq::<(Seq<char>, Seq<char>)>::empty();
    assert(pairs_of(values@) =~= none);
    assign_all(&mut values, copy_pairs(&pairs));
    assert(none + pairs_of(pairs@) =~= pairs_of(pairs@));
    let ghost sorted = pairs_of(values@);
    let checked: Result<Environment, String> = finish_environment(values);
    proof {
        assert(sorted_entries(sorted));
        assert(environment_of(pairs_of(pairs@), outcome_of(checked)));
    }
    match checked {
        Ok(_) => Ok(pairs),
        Err(error) => Err(error),
    }
}

/// The assignments of an environment file, given what the file system says of it.
pub fn read_env_file(
    path: &str,
    metadata: Result<(bool, u64), String>,
    contents: Result<String, String>,
) -> (r: Result<Vec<(String, String)>, String>)
    ensures
        match metadata {
            Err(detail) => r matches Err(error) && error@ == "cannot read "@ + path@ + ": "@
                + detail@,
            Ok((is_file, length)) => if !is_file || length > MAX_ENV_FILE_BYTES {
                r matches Err(error) && error@
                    == "environment file must be a regular file no larger than 1 MiB"@
            } else {
                match contents {
                    Err(detail) => r matches Err(error) && error@ == "cannot read "@ + path@ + ": "@
                        + detail@,
                    Ok(text) => env_file_outcome(text@, pairs_outcome(r)),
                }
            },
        },
{
    match metadata {
        Err(detail) => Err(unreadable(path, detail.as_str())),
        Ok((is_file, length)) => {
            if !is_env_file(is_file, length) {
                return Err(
                    "environment file must be a regular file no larger than 1 MiB".to_owned(),
                );
            }
            match contents {
                Err(detail) => Err(unreadable(path, detail.as_str())),
                Ok(text) => parse_env_file(text.as_str()),
            }
        },
    }
}

/// The message for a file that cannot be read.
pub fn unreadable(path: &str, detail: &str) -> (r: String)
    ensures
        r@ == "cannot read "@ + path@ + ": "@ + detail@,
{
    let mut out: String = "cannot read ".to_owned();
    push_text(&mut out, path);
    push_text(&mut out, ": ");
    push_text(&mut out, detail);
    out
}

// ---------------------------------------------------------------------------------------------
// The environment
// ---------------------------------------------------------------------------------------------
fn inherit(variables: Vec<(String, String)>, capture: bool) -> (r: Vec<(String, String)>)
    ensures
        pairs_of(r@) == inherited(pairs_of(variables@), capture),
{
    let ghost all = pairs_of(variables@);
    let mut kept: Vec<(String, String)> = Vec::new();
    let ghost mut seen: int = 0;
    assert(all.take(0) =~= Seq::<(Seq<char>, Seq<char>)>::empty());
    assert(pairs_of(kept@) =~= Seq::<(Seq<char>, Seq<char>)>::empty());
    for pair in iter: variables
        invariant
            iter.seq() == variables@,
            seen == iter.index(),
            all == pairs_of(variables@),
            pairs_of(kept@) == inherited(all.take(seen), capture),
    {
        let ghost before = kept@;
        proof {
            let next = all.take(seen + 1);
            assert(next.drop_last() =~= all.take(seen));
            assert(next.last() == (pair.0@, pair.1@));
        }
        if capture || is_basic_variable(pair.0.as_str()) {
            let ghost entry = (pair.0@, pair.1@);
            kept.push(pair);
            assert(pairs_of(kept@) =~= pairs_of(before).push(entry));
        }
        proof {
            seen = seen + 1;
        }
    }
    assert(all.take(all.len() as int) =~= all);
    kept
}

fn given_pairs(assignments: &Vec<String>) -> (r: Result<Vec<(String, String)>, String>)
    ensures
        match given(texts(assignments@)) {
            Some(pairs) => r matches Ok(list) && pairs_of(list@) == pairs,
            None => r matches Err(error) && error@ == "environment value must use KEY=VALUE"@,
        },
{
    let ghost all = texts(assignments@);
    let mut pairs: Vec<(String, String)> = Vec::new();
    let mut index: usize = 0;
    assert(all.take(0) =~= Seq::<Seq<char>>::empty());
    assert(pairs_of(pairs@) =~= Seq::<(Seq<char>, Seq<char>)>::empty());
    while index < assignments.len()
        invariant
            index <= assignments@.len(),
            all == texts(assignments@),
            given(all.take(index as int)) == Some(pairs_of(pairs@)),
        decreases assignments@.len() - index,
    {
        proof {
            let next = all.take(index + 1);
            assert(next.drop_last() =~= all.take(index as int));
            assert(next.last() == assignments@[index as int]@);
            lemma_given_fault_persists(all, index + 1);
        }
        match split_assignment(assignments[index].as_str()) {
            Ok((key, value)) => {
                let ghost before = pairs@;
                let ghost pair = (key@, value@);
                pairs.push((key, value));
                assert(pairs_of(pairs@) =~= pairs_of(before).push(pair));
            },
            Err(error) => {
                return Err(error);
            },
        }
        index += 1;
    }
    assert(all.take(all.len() as int) =~= all);
    Ok(pairs)
}

proof fn lemma_given_fault_persists(assignments: Seq<Seq<char>>, len: int)
    requires
        0 <= len <= assignments.len(),
    ensures
        given(assignments.take(len)) is None ==> given(assignments) is None,
    decreases assignments.len(),
{
    if len == assignments.len() {
        assert(assignments.take(len) =~= assignments);
    } else {
        assert(assignments.drop_last().take(len) =~= assignments.take(len));
        lemma_given_fault_persists(assignments.drop_last(), len);
    }
}

/// The environment of a submitted command: what is handed on of the submitter's, then the values
/// of the environment file, then those that were given one by one.
pub fn build_environment(
    variables: Vec<(String, String)>,
    capture: bool,
    file: Option<Result<Vec<(String, String)>, String>>,
    assignments: &Vec<String>,
) -> (r: Result<Environment, String>)
    ensures
        match file {
            Some(Err(error)) => r matches Err(message) && message@ == error@,
            Some(Ok(pairs)) => built_environment(
                inherited(pairs_of(variables@), capture) + pairs_of(pairs@),
                texts(assignments@),
                outcome_of(r),
            ),
            None => built_environment(
                inherited(pairs_of(variables@), capture),
                texts(assignments@),
                outcome_of(r),
            ),
        },
{
    let ghost none = Seq::<(Seq<char>, Seq<char>)>::empty();
    let mut values: Vec<(String, String)> = Vec::new();
    assert(pairs_of(values@) =~= none);
    let kept: Vec<(String, String)> = inherit(variables, capture);
    let ghost mut so_far = pairs_of(kept@);
    assert(none + so_far =~= so_far);
    assign_all(&mut values, kept);
    match file {
        Some(Ok(pairs)) => {
            let ghost more = pairs_of(pairs@);
            assert(entries_map(pairs_of(values@)) == entries_map(so_far));
            assign_all(&mut values, pairs);
            proof {
                so_far = so_far + more;
            }
        },
        Some(Err(error)) => {
            return Err(error);
        },
        None => {},
    }
    assert(entries_map(pairs_of(values@)) == entries_map(so_far));
    let pairs: Vec<(String, String)> = match given_pairs(assignments) {
        Ok(pairs) => pairs,
        Err(error) => {
            return Err(error);
        },
    };
    let ghost last = pairs_of(pairs@);
    assign_all(&mut values, pairs);
    assert(entries_map(pairs_of(values@)) == entries_map(so_far + last));
    let ghost sorted = pairs_of(values@);
    let r: Result<Environment, String> = finish_environment(values);
    proof {
        assert(sorted_entries(sorted));
        assert(environment_of(so_far + last, outcome_of(r)));
    }
    r
}

/// The environment with assignments on top of other values.
pub open spec fn built_environment(
    pairs: Entries,
    assignments: Seq<Seq<char>>,
    r: Result<Environment, Seq<char>>,
) -> bool {
    match given(assignments) {
        None => r == Err::<Environment, Seq<char>>("environment value must use KEY=VALUE"@),
        Some(last) => environment_of(pairs + last, r),
    }
}

/// Only the submitter's basic variables are handed on unless all are captured.
pub proof fn lemma_only_basic_variables(variables: Entries, index: int)
    requires
        0 <= index < inherited(variables, false).len(),
    ensures
        is_basic(inherited(variables, false)[index].0),
    decreases variables.len(),
{
    if variables.len() > 0 {
        let rest = inherited(variables.drop_last(), false);
        if index < rest.len() {
            lemma_only_basic_variables(variables.drop_last(), index);
        }
    }
}

/// A value that was given on the command line wins over the environment file and over the
/// submitter's environment.
pub proof fn lemma_given_value_wins(pairs: Entries, given_pairs: Entries, index: int)
    requires
        0 <= index < given_pairs.len(),
        forall|later: int|
            index < later < given_pairs.len() ==> (#[trigger] given_pairs[later]).0
                != given_pairs[index].0,
    ensures
        entries_map(pairs + given_pairs).contains_key(given_pairs[index].0),
        entries_map(pairs + given_pairs)[given_pairs[index].0] == given_pairs[index].1,
    decreases given_pairs.len(),
{
    let all = pairs + given_pairs;
    assert(all.drop_last() =~= pairs + given_pairs.drop_last());
    assert(all.last() == given_pairs.last());
    if index < given_pairs.len() - 1 {
        let init = given_pairs.drop_last();
        assert forall|later: int| index < later < init.len() implies (#[trigger] init[later]).0
            != init[index].0 by {
            assert(given_pairs[later].0 != given_pairs[index].0);
        }
        lemma_given_value_wins(pairs, init, index);
        assert(given_pairs[given_pairs.len() - 1].0 != given_pairs[index].0);
    }
}

} // verus!
