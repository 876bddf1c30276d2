//! Which environment a command is started with.
use crate::cli::environment::{
    assignment, build_environment, environment_of, file_pairs, given, inherited, is_basic_variable,
    is_env_file, outcome_of, parse_env_file, split_assignment,
};
use crate::domain::environment::{
    assigned, entries_map, has_key, lemma_assigned_entries, pairs_of, sorted_entries,
    valid_environment_key, validate_environment_key, Entries, Environment, SecretString,
};
use crate::domain::execution_error::{execution_error_message, ExecutionError};
use crate::text::{
    first_of, is_ascii_alnum, is_ascii_letter, lemma_first_of_is, lemma_text_before_irreflexive,
    lines, starts_with, text_before, texts,
};
use vstd::prelude::*;

verus! {

broadcast use vstd::seq::group_seq_axioms;

// ---------------------------------------------------------------------------------------------
// Assignments
// ---------------------------------------------------------------------------------------------
proof fn lemma_first_sign(text: Seq<char>)
    ensures
        0 <= first_of(text, '=') <= text.len(),
        first_of(text, '=') < text.len() ==> text[first_of(text, '=')] == '=',
        !text.take(first_of(text, '=')).contains('='),
        first_of(text, '=') == text.len() ==> !text.contains('='),
    decreases text.len(),
{
    if text.len() > 0 && text[0] != '=' {
        let tail = text.drop_first();
        let at = first_of(text, '=');
        lemma_first_sign(tail);
        assert(tail.take(at - 1) =~= text.take(at).drop_first());
        assert forall|i: int| 0 <= i < at implies text.take(at)[i] != '=' by {
            if i > 0 {
                assert(tail.take(at - 1)[i - 1] == text[i]);
                assert(tail.take(at - 1).contains(text[i]));
            }
        }
        if at == text.len() {
            assert(text.take(at) =~= text);
        }
    }
}

/// An assignment is a name, an equals sign and a value; the first equals sign ends the name, which is not
/// empty, and the value may hold more of them.
pub proof fn lemma_assignment_is_split_at_the_first_sign(
    text: &str,
    r: Result<(String, String), String>,
)
    requires
        call_ensures(split_assignment, (text,), r),
    ensures
        match r {
            Ok((key, value)) => {
                &&& text@ == key@ + seq!['='] + value@
                &&& key@.len() > 0
                &&& !key@.contains('=')
            },
            Err(_) => !text@.contains('=') || text@[0] == '=',
        },
{
    let at = first_of(text@, '=');
    lemma_first_sign(text@);
    if at < text@.len() {
        assert(text@ =~= text@.take(at) + seq!['='] + text@.skip(at + 1));
    }
}

proof fn lemma_letters_and_digits(c: char)
    ensures
        is_ascii_letter(c) <==> 'a' <= c <= 'z' || 'A' <= c <= 'Z',
        is_ascii_alnum(c) <==> 'a' <= c <= 'z' || 'A' <= c <= 'Z' || '0' <= c <= '9',
{
}

/// The name of a variable is a letter or an underscore, followed by letters, digits and underscores.
pub proof fn lemma_names_are_identifiers(key: &str, r: Result<(), ExecutionError>)
    requires
        call_ensures(validate_environment_key, (key,), r),
    ensures
        r is Ok <==> key@.len() > 0 && !('0' <= key@[0] <= '9') && forall|i: int|
            0 <= i < key@.len() ==> {
                ||| 'a' <= #[trigger] key@[i] <= 'z'
                ||| 'A' <= key@[i] <= 'Z'
                ||| '0' <= key@[i] <= '9'
                ||| key@[i] == '_'
            },
        r matches Err(error) ==> error == ExecutionError::InvalidEnvironmentKey,
{
    if key@.len() > 0 {
        lemma_letters_and_digits(key@[0]);
    }
    if r is Ok {
        assert forall|i: int| 0 <= i < key@.len() implies {
            ||| 'a' <= #[trigger] key@[i] <= 'z'
            ||| 'A' <= key@[i] <= 'Z'
            ||| '0' <= key@[i] <= '9'
            ||| key@[i] == '_'
        } by {
            lemma_letters_and_digits(key@[i]);
            if i > 0 {
                assert(key@[i] == '_' || is_ascii_alnum(key@[i]));
            } else {
                assert(key@[i] == '_' || is_ascii_letter(key@[i]));
            }
        }
    }
}

/// A value is never shown.
pub proof fn lemma_values_are_not_shown(secret: &SecretString, text: String)
    requires
        call_ensures(SecretString::to_string, (secret,), text),
    ensures
        text@ == "[REDACTED]"@,
{
}

// ---------------------------------------------------------------------------------------------
// Environment files
// ---------------------------------------------------------------------------------------------
/// An environment file is a regular file of at most a mebibyte.
pub proof fn lemma_environment_files_are_small(is_file: bool, length: u64, r: bool)
    requires
        call_ensures(is_env_file, (is_file, length), r),
    ensures
        r <==> is_file && length <= 1024 * 1024,
{
}

/// Empty lines and comments do not count; any other line adds one assignment, and no name may be assigned
/// twice.
pub proof fn lemma_lines_are_assignments(file: Seq<Seq<char>>, pairs: Entries, line: Seq<char>)
    requires
        file_pairs(file) == Ok::<Entries, Seq<char>>(pairs),
    ensures
        line.len() == 0 || line[0] == '#' ==> file_pairs(file.push(line)) == file_pairs(file),
        line.len() > 0 && line[0] != '#' ==> match file_pairs(file.push(line)) {
            Ok(more) => {
                &&& more.len() == pairs.len() + 1
                &&& more.drop_last() == pairs
                &&& line == more.last().0 + seq!['='] + more.last().1
                &&& more.last().0.len() > 0 && !more.last().0.contains('=')
                &&& forall|i: int|
                    0 <= i < pairs.len() ==> (#[trigger] pairs[i]).0 != more.last().0
            },
            Err(_) => {
                ||| !line.contains('=')
                ||| line[0] == '='
                ||| exists|i: int|
                    0 <= i < pairs.len() && starts_with(
                        line,
                        (#[trigger] pairs[i]).0 + seq!['='],
                    )
            },
        },
{
    let longer = file.push(line);
    assert(longer.drop_last() =~= file);
    assert(longer.last() == line);
    let at = first_of(line, '=');
    lemma_first_sign(line);
    if line.len() > 0 && line[0] != '#' && 0 < at < line.len() {
        let key = line.take(at);
        let value = line.skip(at + 1);
        assert(line =~= key + seq!['='] + value);
        if has_key(pairs, key) {
            let i = choose|i: int| 0 <= i < pairs.len() && #[trigger] pairs[i].0 == key;
            assert(line.take(at + 1) =~= pairs[i].0 + seq!['=']);
        } else {
            assert forall|i: int| 0 <= i < pairs.len() implies (#[trigger] pairs[i]).0 != key by {
                assert(pairs[i].0 == pairs[i].0);
            }
            assert(pairs.push((key, value)).drop_last() =~= pairs);
        }
    }
}

// ---------------------------------------------------------------------------------------------
// The environment
// ---------------------------------------------------------------------------------------------
/// The last value that the entries give the name.
pub open spec fn last_value(entries: Entries, name: Seq<char>, value: Seq<char>) -> bool {
    exists|i: int|
        {
            &&& 0 <= i < entries.len()
            &&& #[trigger] entries[i] == (name, value)
            &&& forall|j: int| i < j < entries.len() ==> (#[trigger] entries[j]).0 != name
        }
}

/// The entries do not give the name a value.
pub open spec fn unset(entries: Entries, name: Seq<char>) -> bool {
    forall|i: int| 0 <= i < entries.len() ==> (#[trigger] entries[i]).0 != name
}

/// The variable says who the user is, where programs are found and how texts are shown.
pub open spec fn handed_on(name: Seq<char>) -> bool {
    ||| name == "HOME"@ || name == "USER"@ || name == "LOGNAME"@
    ||| name == "PATH"@ || name == "TMPDIR"@
    ||| name == "LANG"@ || starts_with(name, "LC_"@)
}

/// Unless all variables are captured, only those are handed on.
pub proof fn lemma_basic_variables(key: &str, r: bool)
    requires
        call_ensures(is_basic_variable, (key,), r),
    ensures
        r <==> handed_on(key@),
{
}

proof fn lemma_map_is_last_value(entries: Entries, name: Seq<char>)
    ensures
        entries_map(entries).contains_key(name) ==> last_value(
            entries,
            name,
            entries_map(entries)[name],
        ),
        !entries_map(entries).contains_key(name) ==> unset(entries, name),
    decreases entries.len(),
{
    if entries.len() > 0 {
        let init = entries.drop_last();
        lemma_map_is_last_value(init, name);
        if entries.last().0 == name {
            assert(entries[entries.len() - 1] == (name, entries.last().1));
            assert(last_value(entries, name, entries.last().1));
        } else if entries_map(init).contains_key(name) {
            let value = entries_map(init)[name];
            let i = choose|i: int|
                {
                    &&& 0 <= i < init.len()
                    &&& #[trigger] init[i] == (name, value)
                    &&& forall|j: int| i < j < init.len() ==> (#[trigger] init[j]).0 != name
                };
            assert(entries[i] == (name, value));
            assert forall|j: int| i < j < entries.len() implies (#[trigger] entries[j]).0
                != name by {
                if j < init.len() {
                    assert(init[j] == entries[j]);
                }
            }
        } else {
            assert forall|i: int| 0 <= i < entries.len() implies (#[trigger] entries[i]).0
                != name by {
                if i < init.len() {
                    assert(init[i] == entries[i]);
                }
            }
        }
    }
}

proof fn lemma_last_value_is_one(
    entries: Entries,
    name: Seq<char>,
    a: Seq<char>,
    b: Seq<char>,
)
    requires
        last_value(entries, name, a),
    ensures
        last_value(entries, name, b) ==> a == b,
        !unset(entries, name),
{
}

proof fn lemma_joined_entries(a: Entries, b: Entries, name: Seq<char>, value: Seq<char>)
    ensures
        last_value(b, name, value) ==> last_value(a + b, name, value),
        unset(b, name) && last_value(a, name, value) ==> last_value(a + b, name, value),
        unset(a, name) && unset(b, name) ==> unset(a + b, name),
{
    let all = a + b;
    if last_value(b, name, value) {
        let i = choose|i: int|
            {
                &&& 0 <= i < b.len()
                &&& #[trigger] b[i] == (name, value)
                &&& forall|j: int| i < j < b.len() ==> (#[trigger] b[j]).0 != name
            };
        assert(all[a.len() + i] == (name, value));
        assert forall|j: int| a.len() + i < j < all.len() implies (#[trigger] all[j]).0 != name by {
            assert(all[j] == b[j - a.len()]);
        }
    }
    if unset(b, name) && last_value(a, name, value) {
        let i = choose|i: int|
            {
                &&& 0 <= i < a.len()
                &&& #[trigger] a[i] == (name, value)
                &&& forall|j: int| i < j < a.len() ==> (#[trigger] a[j]).0 != name
            };
        assert(all[i] == (name, value));
        assert forall|j: int| i < j < all.len() implies (#[trigger] all[j]).0 != name by {
            if j >= a.len() {
                assert(all[j] == b[j - a.len()]);
            } else {
                assert(all[j] == a[j]);
            }
        }
    }
    if unset(a, name) && unset(b, name) {
        assert forall|j: int| 0 <= j < all.len() implies (#[trigger] all[j]).0 != name by {
            if j >= a.len() {
                assert(all[j] == b[j - a.len()]);
            } else {
                assert(all[j] == a[j]);
            }
        }
    }
}

proof fn lemma_inherited(
    variables: Entries,
    capture: bool,
    name: Seq<char>,
    value: Seq<char>,
)
    ensures
        (capture || handed_on(name)) && last_value(variables, name, value) ==> last_value(
            inherited(variables, capture),
            name,
            value,
        ),
        unset(variables, name) || !(capture || handed_on(name)) ==> unset(
            inherited(variables, capture),
            name,
        ),
    decreases variables.len(),
{
    if variables.len() > 0 {
        let init = variables.drop_last();
        let last = variables.last();
        let rest = inherited(init, capture);
        let all = inherited(variables, capture);
        assert(variables[variables.len() - 1] == last);
        lemma_inherited(init, capture, name, value);
        lemma_joined_entries(init, seq![last], name, value);
        assert(init + seq![last] =~= variables);
        lemma_joined_entries(rest, seq![last], name, value);
        assert(rest + seq![last] =~= rest.push(last));
        if unset(variables, name) {
            assert forall|i: int| 0 <= i < init.len() implies (#[trigger] init[i]).0 != name by {
                assert(init[i] == variables[i]);
            }
        }
        if last_value(variables, name, value) {
            let i = choose|i: int|
                {
                    &&& 0 <= i < variables.len()
                    &&& #[trigger] variables[i] == (name, value)
                    &&& forall|j: int|
                        i < j < variables.len() ==> (#[trigger] variables[j]).0 != name
                };
            if i < init.len() {
                assert(init[i] == (name, value));
                assert forall|j: int| i < j < init.len() implies (#[trigger] init[j]).0 != name by {
                    assert(init[j] == variables[j]);
                }
                assert(last.0 != name);
                assert(unset(seq![last], name));
            } else {
                assert(seq![last][0] == (name, value));
                assert(last_value(seq![last], name, value));
            }
        }
        if last.0 != name {
            assert(unset(seq![last], name));
        }
    }
}

/// What is assigned on the command line wins over the environment file, and that over what is handed on
/// of the submitter's variables: all of them where they are captured, else the basic ones. Nothing else is
/// in the environment, and no name is in it twice.
pub proof fn lemma_later_values_win(
    variables: Vec<(String, String)>,
    capture: bool,
    file: Option<Result<Vec<(String, String)>, String>>,
    assignments: &Vec<String>,
    environment: Environment,
    asked: Entries,
    name: Seq<char>,
    value: Seq<char>,
)
    requires
        call_ensures(
            build_environment,
            (variables, capture, file, assignments),
            Ok::<Environment, String>(environment),
        ),
        given(texts(assignments@)) == Some(asked),
    ensures
        ({
            let submitted = pairs_of(variables@);
            let in_file = match file {
                Some(Ok(pairs)) => pairs_of(pairs@),
                _ => Seq::<(Seq<char>, Seq<char>)>::empty(),
            };
            let set = environment@.contains((name, value));
            &&& !(file matches Some(Err(_)))
            &&& last_value(asked, name, value) ==> set
            &&& unset(asked, name) && last_value(in_file, name, value) ==> set
            &&& unset(asked, name) && unset(in_file, name) && (capture || handed_on(name))
                && last_value(submitted, name, value) ==> set
            &&& unset(asked, name) && unset(in_file, name) && (unset(submitted, name) || !(capture
                || handed_on(name))) ==> !set
            &&& forall|i: int, j: int|
                0 <= i < j < environment@.len() ==> (#[trigger] environment@[i]).0 != (
                #[trigger] environment@[j]).0
        }),
{
    let submitted = pairs_of(variables@);
    let none = Seq::<(Seq<char>, Seq<char>)>::empty();
    let in_file = match file {
        Some(Ok(pairs)) => pairs_of(pairs@),
        _ => none,
    };
    let kept = inherited(submitted, capture);
    let before = kept + in_file;
    let all = before + asked;
    if file is None {
        assert(before =~= kept);
    }
    assert(environment_of(all, outcome_of(Ok::<Environment, String>(environment))));
    let values = environment@;
    assert(entries_map(values) == entries_map(all));
    assert forall|i: int, j: int| 0 <= i < j < values.len() implies (#[trigger] values[i]).0 != (
    #[trigger] values[j]).0 by {
        lemma_text_before_irreflexive(values[i].0);
        assert(text_before(values[i].0, values[j].0));
    }
    lemma_inherited(submitted, capture, name, value);
    lemma_joined_entries(kept, in_file, name, value);
    lemma_joined_entries(before, asked, name, value);
    lemma_map_is_last_value(all, name);
    lemma_map_is_last_value(values, name);
    if entries_map(all).contains_key(name) {
        let held = entries_map(all)[name];
        if last_value(all, name, value) {
            lemma_last_value_is_one(all, name, value, held);
        }
        assert(last_value(values, name, held));
        let i = choose|i: int|
            {
                &&& 0 <= i < values.len()
                &&& #[trigger] values[i] == (name, held)
                &&& forall|j: int| i < j < values.len() ==> (#[trigger] values[j]).0 != name
            };
        assert(values.contains((name, held)));
    }
    if last_value(all, name, value) {
        lemma_last_value_is_one(all, name, value, value);
    }
}

/// The entry has a name that a variable may have, and a value without NUL.
pub open spec fn well_formed(entry: (Seq<char>, Seq<char>)) -> bool {
    valid_environment_key(entry.0) && !entry.1.contains('\0')
}

/// An environment is made wherever all that goes into it is well formed.
pub proof fn lemma_environment_is_made_where_it_can_be(
    variables: Vec<(String, String)>,
    capture: bool,
    file: Option<Result<Vec<(String, String)>, String>>,
    assignments: &Vec<String>,
    asked: Entries,
    r: Result<Environment, String>,
)
    requires
        call_ensures(build_environment, (variables, capture, file, assignments), r),
        given(texts(assignments@)) == Some(asked),
        !(file matches Some(Err(_))),
        forall|i: int| 0 <= i < variables@.len() ==> well_formed(#[trigger] pairs_of(variables@)[i]),
        file matches Some(Ok(pairs)) ==> forall|i: int|
            0 <= i < pairs@.len() ==> well_formed(#[trigger] pairs_of(pairs@)[i]),
        forall|i: int| 0 <= i < asked.len() ==> well_formed(#[trigger] asked[i]),
    ensures
        r is Ok,
{
    let submitted = pairs_of(variables@);
    let none = Seq::<(Seq<char>, Seq<char>)>::empty();
    let in_file = match file {
        Some(Ok(pairs)) => pairs_of(pairs@),
        _ => none,
    };
    let kept = inherited(submitted, capture);
    let before = kept + in_file;
    let all = before + asked;
    if file is None {
        assert(before =~= kept);
    }
    lemma_inherited_are_submitted(submitted, capture);
    assert(environment_of(all, outcome_of(r)));
    let values = choose|values: Entries|
        {
            &&& #[trigger] sorted_entries(values)
            &&& entries_map(values) == entries_map(all)
            &&& match assigned(values) {
                Err(error) => outcome_of(r) == Err::<Environment, Seq<char>>(
                    execution_error_message(error),
                ),
                Ok(_) => outcome_of(r) matches Ok(environment) && environment@ == values,
            }
        };
    assert forall|i: int| 0 <= i < all.len() implies well_formed(#[trigger] all[i]) by {
        if i < kept.len() {
            assert(all[i] == kept[i]);
        } else if i < before.len() {
            assert(all[i] == in_file[i - kept.len()]);
        } else {
            assert(all[i] == asked[i - before.len()]);
        }
    }
    assert forall|i: int| 0 <= i < values.len() implies valid_environment_key(
        #[trigger] values[i].0,
    ) && !values[i].1.contains('\0') by {
        let name = values[i].0;
        lemma_map_is_last_value(values, name);
        lemma_map_is_last_value(all, name);
        assert(!unset(values, name));
        let held = entries_map(values)[name];
        let k = choose|k: int|
            {
                &&& 0 <= k < values.len()
                &&& #[trigger] values[k] == (name, held)
                &&& forall|j: int| k < j < values.len() ==> (#[trigger] values[j]).0 != name
            };
        if k != i {
            lemma_text_before_irreflexive(name);
            if i < k {
                assert(text_before(values[i].0, values[k].0));
            }
        }
        let m = choose|m: int|
            {
                &&& 0 <= m < all.len()
                &&& #[trigger] all[m] == (name, held)
                &&& forall|j: int| m < j < all.len() ==> (#[trigger] all[j]).0 != name
            };
        assert(well_formed(all[m]));
    }
    lemma_assigned_entries(values);
}

proof fn lemma_inherited_are_submitted(variables: Entries, capture: bool)
    requires
        forall|i: int| 0 <= i < variables.len() ==> well_formed(#[trigger] variables[i]),
    ensures
        forall|i: int|
            0 <= i < inherited(variables, capture).len() ==> well_formed(
                #[trigger] inherited(variables, capture)[i],
            ),
    decreases variables.len(),
{
    if variables.len() > 0 {
        assert forall|i: int| 0 <= i < variables.drop_last().len() implies well_formed(
            #[trigger] variables.drop_last()[i],
        ) by {
            assert(variables.drop_last()[i] == variables[i]);
        }
        lemma_inherited_are_submitted(variables.drop_last(), capture);
        assert(well_formed(variables[variables.len() - 1]));
        let rest = inherited(variables.drop_last(), capture);
        let all = inherited(variables, capture);
        assert forall|i: int| 0 <= i < all.len() implies well_formed(#[trigger] all[i]) by {
            if i < rest.len() {
                assert(all[i] == rest[i]);
            } else {
                assert(all[i] == variables.last());
            }
        }
    }
}

/// An assignment on the command line that has no name or no equals sign refuses the environment, and so
/// does a file that could not be read.
pub proof fn lemma_malformed_assignments_are_refused(
    variables: Vec<(String, String)>,
    capture: bool,
    file: Option<Result<Vec<(String, String)>, String>>,
    assignments: &Vec<String>,
    r: Result<Environment, String>,
    at: int,
)
    requires
        call_ensures(build_environment, (variables, capture, file, assignments), r),
    ensures
        file matches Some(Err(detail)) ==> (r matches Err(error) && error@ == detail@),
        0 <= at < assignments@.len() && (!assignments@[at]@.contains('=') || assignments@[at]@[0]
            == '=') && assignments@[at]@.len() > 0 ==> r is Err,
{
    if 0 <= at < assignments@.len() && (!assignments@[at]@.contains('=') || assignments@[at]@[0]
        == '=') && assignments@[at]@.len() > 0 {
        let text = assignments@[at]@;
        lemma_first_sign(text);
        if first_of(text, '=') < text.len() {
            assert(text.contains(text[first_of(text, '=')]));
        }
        assert(texts(assignments@)[at] == text);
        lemma_given_fails(texts(assignments@), at);
    }
}

proof fn lemma_given_fails(assignments: Seq<Seq<char>>, at: int)
    requires
        0 <= at < assignments.len(),
        assignment(assignments[at]) is None,
    ensures
        given(assignments) is None,
    decreases assignments.len(),
{
    if at < assignments.len() - 1 {
        assert(assignments.drop_last()[at] == assignments[at]);
        lemma_given_fails(assignments.drop_last(), at);
    }
}

/// A file is read line by line: what comes before a line break is a line, with or without a carriage return,
/// and the rest is read after it.
pub proof fn lemma_files_are_read_by_lines(line: Seq<char>, rest: Seq<char>)
    requires
        !line.contains('\n'),
        line.len() > 0 ==> line.last() != '\r',
    ensures
        lines(line + seq!['\n'] + rest) == seq![line] + lines(rest),
        lines(line + seq!['\r', '\n'] + rest) == seq![line] + lines(rest),
        line.len() > 0 ==> lines(line) == seq![line],
{
    let len = line.len() as int;
    let text = line + seq!['\n'] + rest;
    assert forall|i: int| 0 <= i < len implies text[i] != '\n' by {
        assert(text[i] == line[i]);
        assert(line.contains(line[i]));
    }
    assert(text[len] == '\n');
    lemma_first_of_is(text, '\n', len);
    assert(text.take(len) =~= line);
    assert(text.skip(len + 1) =~= rest);
    let other = line + seq!['\r', '\n'] + rest;
    assert forall|i: int| 0 <= i < len + 1 implies other[i] != '\n' by {
        if i < len {
            assert(other[i] == line[i]);
            assert(line.contains(line[i]));
        } else {
            assert(other[i] == '\r');
        }
    }
    assert(other[len + 1] == '\n');
    lemma_first_of_is(other, '\n', len + 1);
    assert(other.take(len + 1) =~= line.push('\r'));
    assert(other.skip(len + 2) =~= rest);
    assert(line.push('\r').drop_last() =~= line);
    assert forall|i: int| 0 <= i < len implies line[i] != '\n' by {
        assert(line.contains(line[i]));
    }
    lemma_first_of_is(line, '\n', len);
}

/// A file with NUL in it is refused; what is read of another are the assignments of its lines.
pub proof fn lemma_files_hold_assignments(
    contents: &str,
    r: Result<Vec<(String, String)>, String>,
)
    requires
        call_ensures(parse_env_file, (contents,), r),
    ensures
        contents@.contains('\0') ==> r is Err,
        r matches Ok(pairs) ==> file_pairs(lines(contents@)) == Ok::<Entries, Seq<char>>(
            pairs_of(pairs@),
        ),
        file_pairs(lines(contents@)) is Err ==> r is Err,
{
}

} // verus!
