//! Where things are kept, and whom they must belong to.
use crate::domain::id::{id_text, RunId};
use crate::infrastructure::paths::{
    resolve_paths, validate_leaf_name, validate_private_dir_for_uid, validate_private_file,
    validate_private_log, EntryFacts, PathEnvironment, PathError, Platform, PlatformPaths,
};
use crate::infrastructure::runtime::{artifact_paths, ArtifactPaths};
use crate::path_text::{
    has_parent_segment, lemma_first_separator_is, path_join, path_within, stays_below,
};
use crate::text::decimal;
use vstd::prelude::*;

verus! {

broadcast use vstd::seq::group_seq_axioms;

// ---------------------------------------------------------------------------------------------
// Paths as texts
// ---------------------------------------------------------------------------------------------
/// The text is one part of a path.
pub open spec fn one_part(text: Seq<char>) -> bool {
    text.len() > 0 && !text.contains('/')
}

/// A part seen from a directory is separated from it by one slash; a path from the root stays as it is.
pub proof fn lemma_parts_are_joined(base: Seq<char>, part: Seq<char>)
    ensures
        part.len() > 0 && part[0] == '/' ==> path_join(base, part) == part,
        one_part(part) && base.len() > 0 && base.last() != '/' ==> path_join(base, part) == base
            + seq!['/'] + part,
        one_part(part) && base.len() > 0 && base.last() == '/' ==> path_join(base, part) == base
            + part,
{
    if one_part(part) {
        assert(part[0] != '/') by {
            assert(part.contains(part[0]));
        }
    }
}

/// A path goes up exactly where one of its parts is `..`.
pub proof fn lemma_parts_that_go_up(part: Seq<char>, rest: Seq<char>)
    requires
        !part.contains('/'),
    ensures
        has_parent_segment(part) <==> part == seq!['.', '.'],
        has_parent_segment(part + seq!['/'] + rest) <==> part == seq!['.', '.']
            || has_parent_segment(rest),
{
    let len = part.len() as int;
    let path = part + seq!['/'] + rest;
    assert forall|i: int| 0 <= i < len implies part[i] != '/' by {
        assert(part.contains(part[i]));
    }
    lemma_first_separator_is(part, len);
    assert(part.take(len) =~= part);
    assert forall|i: int| 0 <= i < len implies path[i] != '/' by {
        assert(path[i] == part[i]);
    }
    assert(path[len] == '/');
    lemma_first_separator_is(path, len);
    assert(path.take(len) =~= part);
    assert(path.skip(len + 1) =~= rest);
}

/// A path stays below its directory only where it does not start at the root and never goes up.
pub proof fn lemma_paths_that_leave_are_refused(part: Seq<char>, rest: Seq<char>)
    requires
        one_part(part),
    ensures
        !stays_below(seq!['/'] + rest),
        !stays_below(seq!['.', '.'] + seq!['/'] + rest),
        !stays_below(part + seq!['/'] + (seq!['.', '.'] + seq!['/'] + rest)),
        part != seq!['.'] && part != seq!['.', '.'] ==> stays_below(part),
        part != seq!['.'] && part != seq!['.', '.'] && stays_below(rest) ==> stays_below(
            part + seq!['/'] + rest,
        ),
{
    let len = part.len() as int;
    let up = seq!['.', '.'];
    assert((seq!['/'] + rest)[0] == '/');
    assert(!up.contains('/'));
    lemma_parts_that_go_up(up, rest);
    lemma_parts_that_go_up(part, up + seq!['/'] + rest);
    lemma_parts_that_go_up(part, rest);
    assert forall|i: int| 0 <= i < len implies part[i] != '/' by {
        assert(part.contains(part[i]));
    }
    lemma_first_separator_is(part, len);
    assert(part.take(len) =~= part);
    let path = part + seq!['/'] + rest;
    assert forall|i: int| 0 <= i < len implies path[i] != '/' by {
        assert(path[i] == part[i]);
    }
    assert(path[len] == '/');
    lemma_first_separator_is(path, len);
    assert(path.take(len) =~= part);
    assert(path[0] == part[0]);
}

/// A path is within a directory where it is the directory, or goes on behind it with a slash; another
/// name that starts alike is not within it.
pub proof fn lemma_similar_names_are_not_within(directory: Seq<char>, rest: Seq<char>)
    requires
        directory.len() > 0,
        directory.last() != '/',
    ensures
        path_within(directory, directory),
        path_within(directory + seq!['/'] + rest, directory),
        rest.len() > 0 && rest[0] != '/' ==> !path_within(directory + rest, directory),
        !path_within(seq!['/'], directory),
{
    let prefix = path_join(directory, Seq::empty());
    assert(prefix =~= directory + seq!['/']);
    let inside = directory + seq!['/'] + rest;
    assert(inside.take(prefix.len() as int) =~= prefix);
    let beside = directory + rest;
    if rest.len() > 0 && rest[0] != '/' {
        assert(beside != directory) by {
            assert(beside.len() > directory.len());
        }
        if prefix.len() <= beside.len() && beside.take(prefix.len() as int) == prefix {
            assert(beside[directory.len() as int] == prefix[directory.len() as int]);
        }
    }
    if seq!['/'] == directory {
        assert(directory.last() == '/');
    }
}

/// The name of an entry is one part, and not `.` or `..`.
pub proof fn lemma_entry_names_are_one_part(
    name: &str,
    r: Result<(), PathError>,
    part: Seq<char>,
    other: Seq<char>,
)
    requires
        call_ensures(validate_leaf_name, (name,), r),
        one_part(part) && one_part(other) && other != seq!['.'],
    ensures
        one_part(name@) ==> (r is Ok <==> name@ != seq!['.'] && name@ != seq!['.', '.']),
        name@.len() == 0 || name@[0] == '/' ==> r is Err,
        name@ == part + seq!['/'] + other ==> r is Err,
{
    let len = name@.len() as int;
    if one_part(name@) {
        assert forall|i: int| 0 <= i < len implies name@[i] != '/' by {
            assert(name@.contains(name@[i]));
        }
        lemma_first_separator_is(name@, len);
        assert(name@.take(len) =~= name@);
    }
    if name@ == part + seq!['/'] + other {
        let end = part.len() as int;
        assert forall|i: int| 0 <= i < end implies name@[i] != '/' by {
            assert(name@[i] == part[i]);
            assert(part.contains(part[i]));
        }
        assert(name@[end] == '/');
        lemma_first_separator_is(name@, end);
        assert(name@.skip(end + 1) =~= other);
        assert forall|i: int| 0 <= i < other.len() implies other[i] != '/' by {
            assert(other.contains(other[i]));
        }
        lemma_first_separator_is(other, other.len() as int);
        assert(other.take(other.len() as int) =~= other);
    }
}

// ---------------------------------------------------------------------------------------------
// Locations
// ---------------------------------------------------------------------------------------------
/// A state directory that was asked for is used, and holds the runtime files too; it must be absolute.
pub proof fn lemma_asked_directory_is_used(
    platform: Platform,
    environment: &PathEnvironment,
    asked: &str,
    uid: u32,
    r: Result<PlatformPaths, PathError>,
)
    requires
        call_ensures(resolve_paths, (platform, environment, Some(asked), uid), r),
    ensures
        r is Ok <==> asked@.len() > 0 && asked@[0] == '/',
        r matches Ok(paths) ==> paths@.state_dir == asked@ && paths@.runtime_dir == path_join(
            asked@,
            "runtime"@,
        ) && paths@.runtime_uses_fallback,
        r matches Err(error) ==> error == PathError::RelativePath,
{
}

/// Without one, Linux keeps state where XDG says, else below the home directory, and macOS in the user's
/// library. Runtime files go where XDG says on Linux, else to a directory of the user's among the
/// temporary files.
pub proof fn lemma_platform_directories_are_used(
    platform: Platform,
    environment: &PathEnvironment,
    uid: u32,
    paths: PlatformPaths,
)
    requires
        call_ensures(
            resolve_paths,
            (platform, environment, None::<&str>, uid),
            Ok::<PlatformPaths, PathError>(paths),
        ),
    ensures
        match platform {
            Platform::Linux => match environment.xdg_state_home {
                Some(root) => paths@.state_dir == path_join(root@, "atx"@),
                None => environment.home matches Some(home) && paths@.state_dir == path_join(
                    home@,
                    ".local/state/atx"@,
                ),
            },
            Platform::MacOs => environment.home matches Some(home) && paths@.state_dir == path_join(
                home@,
                "Library/Application Support/atx"@,
            ),
        },
        if platform == Platform::Linux && environment.xdg_runtime_dir is Some {
            paths@.runtime_dir == path_join(environment.xdg_runtime_dir->0@, "atx"@)
                && !paths@.runtime_uses_fallback
        } else {
            paths@.runtime_uses_fallback && (environment.temporary_directory matches Some(root)
                && paths@.runtime_dir == path_join(root@, "atx-"@ + decimal(uid as nat)))
        },
        paths@.state_dir[0] == '/' && paths@.runtime_dir[0] == '/',
{
}

/// Directories are found wherever the variables are set and absolute.
pub proof fn lemma_directories_are_found(
    environment: &PathEnvironment,
    uid: u32,
    r: Result<PlatformPaths, PathError>,
    home: String,
    root: String,
)
    requires
        call_ensures(resolve_paths, (Platform::Linux, environment, None::<&str>, uid), r),
    ensures
        environment.home is None && environment.xdg_state_home is None ==> r == Err::<
            PlatformPaths,
            PathError,
        >(PathError::MissingHome),
        environment.xdg_state_home == Some(home) && environment.xdg_runtime_dir == Some(root)
            && home@.len() > 0 && home@[0] == '/' && root@.len() > 0 && root@[0] == '/' ==> r is Ok,
{
    reveal_strlit("atx");
    assert("atx"@[0] == 'a');
}

/// The output of a run goes to a directory of its own below the state directory, which is named by the run.
pub proof fn lemma_output_goes_below_the_run(run: RunId, r: ArtifactPaths)
    requires
        call_ensures(artifact_paths, (run,), r),
    ensures
        r.directory@ == "runs/"@ + id_text(run@),
        r.stdout_path@ == r.directory@ + "/stdout.log"@,
        r.stderr_path@ == r.directory@ + "/stderr.log"@,
{
}

// ---------------------------------------------------------------------------------------------
// Trust
// ---------------------------------------------------------------------------------------------
/// A directory is trusted only where it is a real one, belongs to the user and is closed to others.
pub proof fn lemma_directories_must_be_private(entry: EntryFacts, uid: u32, r: Result<(), PathError>)
    requires
        call_ensures(validate_private_dir_for_uid, (entry, uid), r),
    ensures
        r is Ok <==> entry.is_directory && !entry.is_symlink && entry.owner == uid && entry.mode
            & 0o777 == 0o700,
{
}

/// A file is trusted only where it is a regular one, belongs to the user and is closed to others; so is a
/// log.
pub proof fn lemma_files_must_be_private(
    entry: EntryFacts,
    uid: u32,
    file: Result<(), PathError>,
    log: Result<(), PathError>,
)
    requires
        call_ensures(validate_private_file, (entry, uid), file),
        call_ensures(validate_private_log, (entry, uid), log),
    ensures
        file is Ok <==> entry.is_file && entry.owner == uid && entry.mode & 0o777 == 0o600,
        log is Ok <==> file is Ok,
{
}

} // verus!
