//! What each subcommand checks about its paths before it writes anything.
use vstd::prelude::*;

verus! {

/// What a path names on disk, as the caller found it.
#[derive(Clone, Copy, Debug, PartialEq, Eq, Structural)]
pub enum PathKind {
    Missing,
    File,
    Directory,
    /// Exists, but is neither a regular file nor a directory.
    Other,
}

/// Why a subcommand declines to go on.
#[derive(Clone, Copy, Debug, PartialEq, Eq, Structural)]
pub enum Refusal {
    /// The executable to patch does not exist.
    TargetMissing,
    /// The executable to patch does not end in `.exe`.
    NotExecutable,
    /// The manifest to merge is not a regular file.
    InputNotFile,
    /// The output path names something other than a regular file.
    OutputNotFile,
    /// The output path is a directory.
    OutputIsDirectory,
    /// The output exists and overwriting was not asked for.
    OverwriteRefused,
}

/// `k` is the position of the last `.` in `name`.
pub open spec fn is_last_dot(name: Seq<char>, k: int) -> bool {
    &&& 0 <= k < name.len()
    &&& name[k] == '.'
    &&& forall|j: int| k < j < name.len() ==> name[j] != '.'
}

/// The extension of a file name: what follows its last `.`. A name without
/// a `.`, or whose only `.` is its first character, has none.
pub open spec fn extension(name: Seq<char>) -> Option<Seq<char>> {
    if exists|k: int| is_last_dot(name, k) {
        let k = choose|k: int| is_last_dot(name, k);
        if k > 0 {
            Some(name.subrange(k + 1, name.len() as int))
        } else {
            None
        }
    } else {
        None
    }
}

pub open spec fn is_exe_name(name: Seq<char>) -> bool {
    extension(name) == Some("exe"@)
}

/// The extension of `file_name`, a final path component.
pub fn file_extension(file_name: &str) -> (r: Option<&str>)
    ensures
        match r {
            Some(e) => extension(file_name@) == Some(e@),
            None => extension(file_name@) is None,
        },
{
    let n = file_name.unicode_len();
    let mut i: usize = n;
    while i > 0
        invariant
            i <= n == file_name@.len(),
            forall|j: int| i <= j < n ==> file_name@[j] != '.',
        ensures
            i <= n,
            forall|j: int| i <= j < n ==> file_name@[j] != '.',
            i > 0 ==> file_name@[i - 1] == '.',
        decreases i,
    {
        if file_name.get_char(i - 1) == '.' {
            break;
        }
        i = i - 1;
    }
    if i == 0 {
        assert(!exists|k: int| is_last_dot(file_name@, k));
        return None;
    }
    let dot = i - 1;
    assert(is_last_dot(file_name@, dot as int));
    assert forall|k: int| is_last_dot(file_name@, k) implies k == dot by {
        if k < dot {
            assert(file_name@[dot as int] == '.');
        }
    }
    if dot == 0 {
        None
    } else {
        Some(file_name.substring_char(i, n))
    }
}

/// Whether `file_name` has the extension `exe`, compared exactly.
pub fn has_exe_extension(file_name: &str) -> (r: bool)
    ensures
        r == is_exe_name(file_name@),
{
    proof {
        reveal_strlit("exe");
    }
    match file_extension(file_name) {
        None => false,
        Some(e) => {
            let same = e.unicode_len() == 3 && e.get_char(0) == 'e' && e.get_char(1) == 'x'
                && e.get_char(2) == 'e';
            assert(same ==> e@ =~= "exe"@);
            same
        },
    }
}

/// The check made before patching an executable in place: it must exist
/// and its file name must end in `.exe`.
pub fn check_apply_target(target: PathKind, file_name: &str) -> (r: Result<(), Refusal>)
    ensures
        r == (if target == PathKind::Missing {
            Err(Refusal::TargetMissing)
        } else if !is_exe_name(file_name@) {
            Err(Refusal::NotExecutable)
        } else {
            Ok(())
        }),
        !is_exe_name(file_name@) ==> r is Err,
{
    if target == PathKind::Missing {
        Err(Refusal::TargetMissing)
    } else if !has_exe_extension(file_name) {
        Err(Refusal::NotExecutable)
    } else {
        Ok(())
    }
}

/// The check made before writing the manifest to `output`: never into a
/// directory, and over an existing file only when `force` is set.
pub fn check_manifest_output(output: PathKind, force: bool) -> (r: Result<(), Refusal>)
    ensures
        r == (if output == PathKind::Directory {
            Err(Refusal::OutputIsDirectory)
        } else if output == PathKind::File && !force {
            Err(Refusal::OverwriteRefused)
        } else {
            Ok(())
        }),
        output == PathKind::File && !force ==> r is Err,
{
    if output == PathKind::Directory {
        Err(Refusal::OutputIsDirectory)
    } else if output == PathKind::File && !force {
        Err(Refusal::OverwriteRefused)
    } else {
        Ok(())
    }
}

/// Where merging a manifest writes: `output` when given, else over `input`.
pub fn merge_output<'a>(input: &'a str, output: Option<&'a str>) -> (r: &'a str)
    ensures
        r@ == match output {
            Some(o) => o@,
            None => input@,
        },
{
    match output {
        Some(o) => o,
        None => input,
    }
}

/// The check made before merging the manifest into the one at `input`: the
/// input must be a regular file, and the output, if it exists, a regular file
/// that `force` allows to overwrite.
pub fn check_merge_paths(input: PathKind, output: PathKind, force: bool) -> (r: Result<
    (),
    Refusal,
>)
    ensures
        r == (if input != PathKind::File {
            Err(Refusal::InputNotFile)
        } else if output != PathKind::Missing && output != PathKind::File {
            Err(Refusal::OutputNotFile)
        } else if output != PathKind::Missing && !force {
            Err(Refusal::OverwriteRefused)
        } else {
            Ok(())
        }),
{
    if input != PathKind::File {
        Err(Refusal::InputNotFile)
    } else if output != PathKind::Missing && output != PathKind::File {
        Err(Refusal::OutputNotFile)
    } else if output != PathKind::Missing && !force {
        Err(Refusal::OverwriteRefused)
    } else {
        Ok(())
    }
}

} // verus!
