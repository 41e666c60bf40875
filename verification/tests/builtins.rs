use iron_shell::builtins::{
    cd, cd_failed, copy, copy_failed, create, create_failed, delete, delete_failed, exit, hi, list,
    list_failed, list_output, move_cmd, move_failed, read, read_failed, rename, FsKind,
};

fn args(a: &[&str]) -> Vec<String> {
    a.iter().map(|x| x.to_string()).collect()
}

fn s(x: &str) -> String {
    x.to_string()
}

#[test]
fn exit_stops_silently() {
    assert_eq!(exit(&args(&["now"])), (false, String::new()));
}

#[test]
fn cd_goes_to_first_argument_else_home_else_root() {
    assert_eq!(cd(&args(&["/tmp", "x"]), Some(s("/home/u"))), "/tmp");
    assert_eq!(cd(&args(&[]), Some(s("/home/u"))), "/home/u");
    assert_eq!(cd(&args(&[]), None), "/");
}

#[test]
fn cd_failure_message() {
    assert_eq!(cd_failed("nowhere", "No such file"), "iron_shell: cd: nowhere: No such file");
}

#[test]
fn create_reads_kind_and_name() {
    assert_eq!(create(&args(&["folder", "d"])), Ok((FsKind::Folder, s("d"))));
    assert_eq!(create(&args(&["file", "f.txt", "extra"])), Ok((FsKind::File, s("f.txt"))));
}

#[test]
fn create_usage_and_unknown_target() {
    assert_eq!(create(&args(&["file"])), Err(s("iron_shell: usage: create <folder|file> <name>")));
    assert_eq!(
        create(&args(&["disk", "x"])),
        Err(s("iron_shell: unknown target 'disk', use 'folder' or 'file'"))
    );
}

#[test]
fn create_failure_message() {
    assert_eq!(
        create_failed(FsKind::Folder, "d", "exists"),
        "iron_shell: failed to create folder d: exists"
    );
    assert_eq!(create_failed(FsKind::File, "f", "denied"), "iron_shell: failed to create file f: denied");
}

#[test]
fn delete_reads_kind_and_name() {
    assert_eq!(delete(&args(&["file", "a"])), Ok((FsKind::File, s("a"))));
    assert_eq!(delete(&args(&[])), Err(s("iron_shell: usage: delete <folder|file> <name>")));
    assert_eq!(
        delete(&args(&["Folder", "a"])),
        Err(s("iron_shell: unknown target 'Folder', use 'folder' or 'file'"))
    );
    assert_eq!(delete_failed(FsKind::Folder, "a", "busy"), "iron_shell: failed to delete folder a: busy");
}

#[test]
fn list_defaults_to_current_folder() {
    assert_eq!(list(&args(&["folder"])), Ok(s(".")));
    assert_eq!(list(&args(&["folder", "/etc"])), Ok(s("/etc")));
    assert_eq!(list(&args(&[])), Err(s("iron_shell: usage: list folder [path]")));
    assert_eq!(list(&args(&["file", "x"])), Err(s("iron_shell: usage: list folder [path]")));
    assert_eq!(list_failed(".", "denied"), "iron_shell: failed to list folder .: denied");
}

#[test]
fn list_output_is_one_name_per_line_without_trailing_whitespace() {
    assert_eq!(list_output(&args(&["a", "b c", "d "])), "a\nb c\nd");
    assert_eq!(list_output(&args(&[])), "");
}

#[test]
fn read_needs_file_and_name() {
    assert_eq!(read(&args(&["file", "notes"])), Ok(s("notes")));
    assert_eq!(read(&args(&["file"])), Err(s("iron_shell: usage: read file <name>")));
    assert_eq!(read(&args(&["folder", "x"])), Err(s("iron_shell: usage: read file <name>")));
    assert_eq!(read_failed("notes", "missing"), "iron_shell: failed to read file notes: missing");
}

#[test]
fn copy_reads_kind_source_and_destination() {
    assert_eq!(copy(&args(&["file", "a", "b"])), Ok((FsKind::File, s("a"), s("b"))));
    assert_eq!(copy(&args(&["folder", "a"])), Err(s("iron_shell: usage: copy <file|folder> <src> <dest>")));
    assert_eq!(
        copy(&args(&["link", "a", "b"])),
        Err(s("iron_shell: unknown target 'link', use 'folder' or 'file'"))
    );
    assert_eq!(
        copy_failed(FsKind::Folder, "a", "b", "full"),
        "iron_shell: failed to copy folder from a to b: full"
    );
}

#[test]
fn move_and_rename_agree() {
    for a in [args(&["file", "a", "b"]), args(&["folder", "x"]), args(&["x", "a", "b"])] {
        assert_eq!(move_cmd(&a), rename(&a));
    }
    assert_eq!(rename(&args(&["folder", "a", "b"])), Ok((FsKind::Folder, s("a"), s("b"))));
    assert_eq!(rename(&args(&[])), Err(s("iron_shell: usage: move <file|folder> <src> <dest>")));
    assert_eq!(move_failed(FsKind::File, "a", "b", "denied"), "iron_shell: failed to move file from a to b: denied");
}

#[test]
fn hi_greets_by_username_then_user_then_there() {
    assert_eq!(hi(Some(s("ann")), Some(s("bob"))), (true, s("hii ann")));
    assert_eq!(hi(None, Some(s("bob"))), (true, s("hii bob")));
    assert_eq!(hi(None, None), (true, s("hii there")));
}
