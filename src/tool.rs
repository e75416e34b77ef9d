//! Command lines for the manifest tool (`mt`).

use vstd::prelude::*;

verus! {

/// Name of the manifest tool looked up on the search path.
pub const MANIFEST_TOOL: &'static str = "mt";

/// How the manifest is written into the executable's resources.
#[derive(Clone, Copy, Debug, PartialEq, Eq, Structural)]
pub enum ResourceAction {
    /// The executable already holds a valid manifest: merge into it.
    Update,
    /// The executable holds none: write a fresh manifest resource.
    Output,
}

/// Update a manifest that the probe found, else write a fresh one.
pub open spec fn action_after_probe(probe_succeeded: bool) -> ResourceAction {
    if probe_succeeded {
        ResourceAction::Update
    } else {
        ResourceAction::Output
    }
}

/// The action chosen after probing the executable: `probe_succeeded` is
/// whether the tool, run with `-validate_manifest`, exited with status 0.
pub fn action_for_probe(probe_succeeded: bool) -> (r: ResourceAction)
    ensures
        r == action_after_probe(probe_succeeded),
        probe_succeeded ==> r == ResourceAction::Update,
        !probe_succeeded ==> r == ResourceAction::Output,
{
    if probe_succeeded {
        ResourceAction::Update
    } else {
        ResourceAction::Output
    }
}


/// The word that names the action in the tool's `-<word>resource:` option.
pub open spec fn action_word(action: ResourceAction) -> Seq<char> {
    match action {
        ResourceAction::Update => "update"@,
        ResourceAction::Output => "output"@,
    }
}

impl ResourceAction {
    pub fn word(&self) -> (r: &'static str)
        ensures
            r@ == action_word(*self),
    {
        match self {
            ResourceAction::Update => "update",
            ResourceAction::Output => "output",
        }
    }
}

/// The views of a list of arguments.
pub open spec fn args_view(args: Seq<String>) -> Seq<Seq<char>> {
    args.map_values(|a: String| a@)
}

/// Arguments that ask the tool whether `exe` already holds a valid manifest.
pub open spec fn probe_command(exe: Seq<char>) -> Seq<Seq<char>> {
    seq!["-nologo"@, "-inputresource:"@ + exe, "-validate_manifest"@]
}

/// Arguments that write the manifest file `manifest` into `exe` with `action`.
pub open spec fn embed_command(manifest: Seq<char>, action: ResourceAction, exe: Seq<char>) -> Seq<
    Seq<char>,
> {
    seq!["-nologo"@, "-manifest"@, manifest, "-"@ + action_word(action) + "resource:"@ + exe]
}

/// Arguments that merge the manifest files `input` and `manifest` into a
/// single manifest file `output`.
pub open spec fn merge_command(input: Seq<char>, manifest: Seq<char>, output: Seq<char>) -> Seq<
    Seq<char>,
> {
    seq!["-nologo"@, "-manifest"@, input, manifest, "-out:"@ + output]
}

/// The name under which the manifest for the executable `exe_file_name` is
/// written before embedding.
pub open spec fn manifest_file_name_of(exe_file_name: Seq<char>) -> Seq<char> {
    exe_file_name + ".manifest"@
}

/// Name of the file that holds the manifest to merge.
pub const MERGE_MANIFEST_FILE: &'static str = "utf8.manifest";

fn concat(a: &str, b: &str) -> (r: String)
    ensures
        r@ == a@ + b@,
{
    let mut r = String::from_str(a);
    r.append(b);
    r
}

pub fn manifest_file_name(exe_file_name: &str) -> (r: String)
    ensures
        r@ == manifest_file_name_of(exe_file_name@),
{
    concat(exe_file_name, ".manifest")
}

pub fn probe_args(exe: &str) -> (r: Vec<String>)
    ensures
        args_view(r@) == probe_command(exe@),
{
    let r = vec![
        String::from_str("-nologo"),
        concat("-inputresource:", exe),
        String::from_str("-validate_manifest"),
    ];
    assert(args_view(r@) =~= probe_command(exe@));
    r
}

pub fn embed_args(manifest: &str, action: ResourceAction, exe: &str) -> (r: Vec<String>)
    ensures
        args_view(r@) == embed_command(manifest@, action, exe@),
{
    let mut last = concat("-", action.word());
    last.append("resource:");
    last.append(exe);
    let r = vec![
        String::from_str("-nologo"),
        String::from_str("-manifest"),
        String::from_str(manifest),
        last,
    ];
    assert(args_view(r@) =~= embed_command(manifest@, action, exe@));
    r
}

pub fn merge_args(input: &str, manifest: &str, output: &str) -> (r: Vec<String>)
    ensures
        args_view(r@) == merge_command(input@, manifest@, output@),
{
    let r = vec![
        String::from_str("-nologo"),
        String::from_str("-manifest"),
        String::from_str(input),
        String::from_str(manifest),
        concat("-out:", output),
    ];
    assert(args_view(r@) =~= merge_command(input@, manifest@, output@));
    r
}


/// After a successful probe the embedding step passes `-updateresource:`,
/// after a failed one `-outputresource:`, both naming the executable that
/// was probed.
pub proof fn lemma_probe_decides_resource_option(
    probe_succeeded: bool,
    manifest: Seq<char>,
    exe: Seq<char>,
)
    ensures
        probe_succeeded ==> embed_command(manifest, action_after_probe(probe_succeeded), exe)[3]
            == "-updateresource:"@ + exe,
        !probe_succeeded ==> embed_command(manifest, action_after_probe(probe_succeeded), exe)[3]
            == "-outputresource:"@ + exe,
{
    reveal_strlit("-");
    reveal_strlit("update");
    reveal_strlit("output");
    reveal_strlit("resource:");
    reveal_strlit("-updateresource:");
    reveal_strlit("-outputresource:");
    let word = action_word(action_after_probe(probe_succeeded));
    if probe_succeeded {
        assert("-"@ + word + "resource:"@ =~= "-updateresource:"@);
    } else {
        assert("-"@ + word + "resource:"@ =~= "-outputresource:"@);
    }
    assert("-"@ + word + "resource:"@ + exe =~= ("-"@ + word + "resource:"@) + exe);
}

} // verus!
