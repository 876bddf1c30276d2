//! Session runtime.
use vstd::prelude::*;

use crate::domain::id::{id_of_text, id_text, lemma_id_round_trip, symbol_digit, RunId};
use crate::path_text::{first_segment, has_parent_segment, lemma_first_separator_is, stays_below};
use crate::text::{copy_text, push_text, texts};

verus! {

broadcast use vstd::seq::group_seq_axioms;

/// Where the output of a run goes, below the state directory.
#[derive(Debug, PartialEq, Eq)]
pub struct ArtifactPaths {
    pub directory: String,
    pub stdout_path: String,
    pub stderr_path: String,
}

/// The directory of a run, below the state directory.
pub open spec fn run_directory(number: u128) -> Seq<char> {
    "runs/"@ + id_text(number)
}

/// Where the output of a run goes.
pub fn artifact_paths(run_id: RunId) -> (r: ArtifactPaths)
    ensures
        r.directory@ == run_directory(run_id@),
        r.stdout_path@ == run_directory(run_id@) + "/stdout.log"@,
        r.stderr_path@ == run_directory(run_id@) + "/stderr.log"@,
{
    let mut directory: String = "runs/".to_owned();
    push_text(&mut directory, run_id.to_string().as_str());
    let mut stdout_path: String = copy_text(directory.as_str());
    push_text(&mut stdout_path, "/stdout.log");
    let mut stderr_path: String = copy_text(directory.as_str());
    push_text(&mut stderr_path, "/stderr.log");
    ArtifactPaths { directory, stdout_path, stderr_path }
}

/// The output of every run goes below the state directory, so that its paths can be stored.
pub proof fn lemma_artifacts_stay_below(number: u128)
    ensures
        stays_below(run_directory(number) + "/stdout.log"@),
        stays_below(run_directory(number) + "/stderr.log"@),
{
    reveal_strlit("/stdout.log");
    reveal_strlit("/stderr.log");
    assert(!"/stdout.log"@.drop_first().contains('/'));
    assert(!"/stderr.log"@.drop_first().contains('/'));
    lemma_leaf_stays_below(number, "/stdout.log"@);
    lemma_leaf_stays_below(number, "/stderr.log"@);
}

proof fn lemma_leaf_stays_below(number: u128, leaf: Seq<char>)
    requires
        leaf.len() == 11,
        leaf[0] == '/',
        !leaf.drop_first().contains('/'),
    ensures
        stays_below(run_directory(number) + leaf),
{
    let id = id_text(number);
    let path = run_directory(number) + leaf;
    lemma_id_round_trip(number);
    assert(id_of_text(id) is Some);
    reveal_strlit("runs/");
    assert forall|i: int| 0 <= i < id.len() implies id[i] != '/' && id[i] != '.' by {
        assert(symbol_digit(id[i]) is Some);
    }
    lemma_first_separator_is(path, 4);
    assert(path.take(4)[0] == 'r');
    let rest = path.skip(5);
    assert(rest =~= id + leaf);
    lemma_first_separator_is(rest, 26);
    assert(rest.take(26)[0] == id[0]);
    let last = rest.skip(27);
    assert(last =~= leaf.drop_first());
    assert forall|i: int| 0 <= i < last.len() implies last[i] != '/' by {
        assert(leaf.drop_first()[i] != '/');
    }
    lemma_first_separator_is(last, 10);
    assert(last.take(10).len() == 10);
    assert(!has_parent_segment(last));
    assert(!has_parent_segment(rest));
    assert(!has_parent_segment(path));
    assert(first_segment(path) != seq!['.']);
}

/// The arguments of a supervisor for the session.
pub fn supervisor_arguments(state_directory: &str, runtime_directory: &str) -> (r: Vec<String>)
    ensures
        texts(r@) == seq![
            "__supervisor"@,
            "--state-dir"@,
            state_directory@,
            "--runtime-dir"@,
            runtime_directory@,
        ],
{
    let mut arguments: Vec<String> = Vec::new();
    arguments.push("__supervisor".to_owned());
    arguments.push("--state-dir".to_owned());
    arguments.push(copy_text(state_directory));
    arguments.push("--runtime-dir".to_owned());
    arguments.push(copy_text(runtime_directory));
    assert(texts(arguments@) =~= seq![
        "__supervisor"@,
        "--state-dir"@,
        state_directory@,
        "--runtime-dir"@,
        runtime_directory@,
    ]);
    arguments
}

} // verus!
