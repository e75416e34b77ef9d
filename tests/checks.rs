use forceu8exe::checks::{
    check_apply_target, check_manifest_output, check_merge_paths, file_extension,
    has_exe_extension, merge_output, PathKind, Refusal,
};

#[test]
fn extension_after_last_dot() {
    assert_eq!(file_extension("tool.exe"), Some("exe"));
    assert_eq!(file_extension("a.b.exe"), Some("exe"));
    assert_eq!(file_extension("archive.tar.gz"), Some("gz"));
    assert_eq!(file_extension("trailing."), Some(""));
    assert_eq!(file_extension("..exe"), Some("exe"));
}

#[test]
fn no_extension() {
    assert_eq!(file_extension(""), None);
    assert_eq!(file_extension("tool"), None);
    assert_eq!(file_extension(".exe"), None);
}

#[test]
fn exe_extension_is_exact() {
    assert!(has_exe_extension("tool.exe"));
    assert!(has_exe_extension("my app.v2.exe"));
    assert!(!has_exe_extension("tool.EXE"));
    assert!(!has_exe_extension("tool.exe.bak"));
    assert!(!has_exe_extension("tool.ex"));
    assert!(!has_exe_extension("tool.exes"));
    assert!(!has_exe_extension("exe"));
    assert!(!has_exe_extension(".exe"));
}

#[test]
fn apply_refuses_path_without_exe_extension() {
    assert_eq!(check_apply_target(PathKind::File, "script.bat"), Err(Refusal::NotExecutable));
    assert_eq!(check_apply_target(PathKind::File, "tool"), Err(Refusal::NotExecutable));
    assert_eq!(check_apply_target(PathKind::Directory, "dir.d"), Err(Refusal::NotExecutable));
}

#[test]
fn apply_refuses_missing_target_first() {
    assert_eq!(check_apply_target(PathKind::Missing, "tool.exe"), Err(Refusal::TargetMissing));
    assert_eq!(check_apply_target(PathKind::Missing, "tool.txt"), Err(Refusal::TargetMissing));
}

#[test]
fn apply_accepts_existing_exe() {
    assert_eq!(check_apply_target(PathKind::File, "tool.exe"), Ok(()));
}

#[test]
fn manifest_refuses_existing_output_without_force() {
    assert_eq!(check_manifest_output(PathKind::File, false), Err(Refusal::OverwriteRefused));
}

#[test]
fn manifest_overwrites_with_force() {
    assert_eq!(check_manifest_output(PathKind::File, true), Ok(()));
    assert_eq!(check_manifest_output(PathKind::Missing, false), Ok(()));
}

#[test]
fn manifest_refuses_directory() {
    assert_eq!(check_manifest_output(PathKind::Directory, false), Err(Refusal::OutputIsDirectory));
    assert_eq!(check_manifest_output(PathKind::Directory, true), Err(Refusal::OutputIsDirectory));
}

#[test]
fn merge_output_defaults_to_input() {
    assert_eq!(merge_output("in.manifest", None), "in.manifest");
    assert_eq!(merge_output("in.manifest", Some("out.manifest")), "out.manifest");
}

#[test]
fn merge_refusals() {
    assert_eq!(check_merge_paths(PathKind::Missing, PathKind::Missing, true), Err(Refusal::InputNotFile));
    assert_eq!(check_merge_paths(PathKind::Directory, PathKind::Missing, true), Err(Refusal::InputNotFile));
    assert_eq!(check_merge_paths(PathKind::File, PathKind::Directory, true), Err(Refusal::OutputNotFile));
    assert_eq!(check_merge_paths(PathKind::File, PathKind::Other, false), Err(Refusal::OutputNotFile));
    assert_eq!(check_merge_paths(PathKind::File, PathKind::File, false), Err(Refusal::OverwriteRefused));
}

#[test]
fn merge_accepted() {
    assert_eq!(check_merge_paths(PathKind::File, PathKind::File, true), Ok(()));
    assert_eq!(check_merge_paths(PathKind::File, PathKind::Missing, false), Ok(()));
}
