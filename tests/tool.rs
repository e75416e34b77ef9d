use forceu8exe::tool::{
    action_for_probe, embed_args, manifest_file_name, merge_args, probe_args, ResourceAction,
    MANIFEST_TOOL, MERGE_MANIFEST_FILE,
};

#[test]
fn probe_success_selects_update() {
    assert_eq!(action_for_probe(true), ResourceAction::Update);
    assert_eq!(ResourceAction::Update.word(), "update");
}

#[test]
fn probe_failure_selects_output() {
    assert_eq!(action_for_probe(false), ResourceAction::Output);
    assert_eq!(ResourceAction::Output.word(), "output");
}

#[test]
fn probe_command_line() {
    assert_eq!(MANIFEST_TOOL, "mt");
    assert_eq!(
        probe_args("C:\\bin\\tool.exe"),
        vec!["-nologo", "-inputresource:C:\\bin\\tool.exe", "-validate_manifest"]
    );
}

#[test]
fn embed_command_line_follows_probe() {
    assert_eq!(
        embed_args("t\\tool.exe.manifest", action_for_probe(true), "tool.exe"),
        vec!["-nologo", "-manifest", "t\\tool.exe.manifest", "-updateresource:tool.exe"]
    );
    assert_eq!(
        embed_args("t\\tool.exe.manifest", action_for_probe(false), "tool.exe"),
        vec!["-nologo", "-manifest", "t\\tool.exe.manifest", "-outputresource:tool.exe"]
    );
}

#[test]
fn merge_command_line() {
    assert_eq!(MERGE_MANIFEST_FILE, "utf8.manifest");
    assert_eq!(
        merge_args("app.manifest", "t\\utf8.manifest", "out.manifest"),
        vec!["-nologo", "-manifest", "app.manifest", "t\\utf8.manifest", "-out:out.manifest"]
    );
}

#[test]
fn manifest_file_name_appends_suffix() {
    assert_eq!(manifest_file_name("tool.exe"), "tool.exe.manifest");
    assert_eq!(manifest_file_name(""), ".manifest");
}
