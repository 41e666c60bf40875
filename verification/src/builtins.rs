//! The built-in commands of the shell: how they read their arguments, what
//! they answer to wrong arguments, and the messages they print when the
//! file system refuses what they ask.
//!
//! Each function here decides; the file system operation it asks for is
//! carried out by the caller, which hands the operating system's error text
//! back to the matching `*_failed` function.
use vstd::prelude::*;
use crate::text::{is_word, trim_end, trim_end_spec, is_whitespace};

verus! {

/// What a built-in command works on.
#[derive(Debug, Clone, Copy, PartialEq, Eq, Structural)]
pub enum FsKind {
    Folder,
    File,
}

/// The word that names a kind on the command line: `folder` or `file`.
pub open spec fn kind_word(k: FsKind) -> Seq<char> {
    match k {
        FsKind::Folder => "folder"@,
        FsKind::File => "file"@,
    }
}

/// The kind a word names, if any.
pub open spec fn kind_of(w: Seq<char>) -> Option<FsKind> {
    if w == "folder"@ {
        Some(FsKind::Folder)
    } else if w == "file"@ {
        Some(FsKind::File)
    } else {
        None
    }
}

/// The kind that the word `w` names, if any.
pub fn fs_kind(w: &String) -> (k: Option<FsKind>)
    ensures
        k == kind_of(w@),
{
    if is_word(w, "folder") {
        Some(FsKind::Folder)
    } else if is_word(w, "file") {
        Some(FsKind::File)
    } else {
        None
    }
}

/// The word that names `k`.
pub fn kind_name(k: FsKind) -> (s: String)
    ensures
        s@ == kind_word(k),
{
    match k {
        FsKind::Folder => String::from_str("folder"),
        FsKind::File => String::from_str("file"),
    }
}

/// The texts of a list of strings.
pub open spec fn texts(args: Seq<String>) -> Seq<Seq<char>> {
    args.map_values(|a: String| a@)
}

/// A request for one path, or the message that refuses it.
pub open spec fn path_view(r: Result<String, String>) -> Result<Seq<char>, Seq<char>> {
    match r {
        Ok(p) => Ok(p@),
        Err(m) => Err(m@),
    }
}

/// A request for a kind and one path, or the message that refuses it.
pub open spec fn named_view(r: Result<(FsKind, String), String>) -> Result<(FsKind, Seq<char>), Seq<char>> {
    match r {
        Ok((k, p)) => Ok((k, p@)),
        Err(m) => Err(m@),
    }
}

/// A request for a kind and two paths, or the message that refuses it.
pub open spec fn pair_view(r: Result<(FsKind, String, String), String>) -> Result<
    (FsKind, Seq<char>, Seq<char>),
    Seq<char>,
> {
    match r {
        Ok((k, a, b)) => Ok((k, a@, b@)),
        Err(m) => Err(m@),
    }
}

/// The answer to a word that names no kind.
pub open spec fn unknown_target_message(t: Seq<char>) -> Seq<char> {
    "iron_shell: unknown target '"@ + t + "', use 'folder' or 'file'"@
}

fn unknown_target(t: &String) -> (m: String)
    ensures
        m@ == unknown_target_message(t@),
{
    let mut m = String::from_str("iron_shell: unknown target '");
    m.append(t.as_str());
    m.append("', use 'folder' or 'file'");
    m
}

/// `exit`: the shell stops, and prints nothing.
pub fn exit(args: &[String]) -> (res: (bool, String))
    ensures
        res.0 == false,
        res.1@ == Seq::<char>::empty(),
{
    (false, String::new())
}

/// The folder `cd` goes to: its first argument, else the home folder, else
/// the root.
pub open spec fn cd_target(args: Seq<Seq<char>>, home: Option<Seq<char>>) -> Seq<char> {
    if args.len() == 0 {
        match home {
            Some(h) => h,
            None => "/"@,
        }
    } else {
        args[0]
    }
}

/// `cd [path]`: the folder to change to; `home` is the value of `HOME`.
pub fn cd(args: &[String], home: Option<String>) -> (dir: String)
    ensures
        dir@ == cd_target(texts(args@), home.deep_view()),
{
    if args.len() == 0 {
        match home {
            Some(h) => h,
            None => String::from_str("/"),
        }
    } else {
        args[0].clone()
    }
}

/// What `cd` prints when the folder cannot be entered.
pub open spec fn cd_failed_message(dir: Seq<char>, err: Seq<char>) -> Seq<char> {
    "iron_shell: cd: "@ + dir + ": "@ + err
}

pub fn cd_failed(dir: &str, err: &str) -> (m: String)
    ensures
        m@ == cd_failed_message(dir@, err@),
{
    let mut m = String::from_str("iron_shell: cd: ");
    m.append(dir);
    m.append(": ");
    m.append(err);
    m
}

pub open spec fn create_usage() -> Seq<char> {
    "iron_shell: usage: create <folder|file> <name>"@
}

/// `create <folder|file> <name>`: what to create.
pub open spec fn create_spec(args: Seq<Seq<char>>) -> Result<(FsKind, Seq<char>), Seq<char>> {
    if args.len() < 2 {
        Err(create_usage())
    } else {
        match kind_of(args[0]) {
            Some(k) => Ok((k, args[1])),
            None => Err(unknown_target_message(args[0])),
        }
    }
}

/// `create <folder|file> <name>`: the kind and name to create, or the
/// message that refuses the arguments.
pub fn create(args: &[String]) -> (res: Result<(FsKind, String), String>)
    ensures
        named_view(res) == create_spec(texts(args@)),
{
    if args.len() < 2 {
        return Err(String::from_str("iron_shell: usage: create <folder|file> <name>"));
    }
    match fs_kind(&args[0]) {
        Some(k) => Ok((k, args[1].clone())),
        None => Err(unknown_target(&args[0])),
    }
}

/// What `create` prints when the file system refuses.
pub open spec fn create_failed_message(k: FsKind, name: Seq<char>, err: Seq<char>) -> Seq<char> {
    "iron_shell: failed to create "@ + kind_word(k) + " "@ + name + ": "@ + err
}

pub fn create_failed(k: FsKind, name: &str, err: &str) -> (m: String)
    ensures
        m@ == create_failed_message(k, name@, err@),
{
    let mut m = String::from_str("iron_shell: failed to create ");
    m.append(kind_name(k).as_str());
    m.append(" ");
    m.append(name);
    m.append(": ");
    m.append(err);
    m
}

pub open spec fn delete_usage() -> Seq<char> {
    "iron_shell: usage: delete <folder|file> <name>"@
}

/// `delete <folder|file> <name>`: what to delete.
pub open spec fn delete_spec(args: Seq<Seq<char>>) -> Result<(FsKind, Seq<char>), Seq<char>> {
    if args.len() < 2 {
        Err(delete_usage())
    } else {
        match kind_of(args[0]) {
            Some(k) => Ok((k, args[1])),
            None => Err(unknown_target_message(args[0])),
        }
    }
}

/// `delete <folder|file> <name>`: the kind and name to delete (a folder with
/// all it holds), or the message that refuses the arguments.
pub fn delete(args: &[String]) -> (res: Result<(FsKind, String), String>)
    ensures
        named_view(res) == delete_spec(texts(args@)),
{
    if args.len() < 2 {
        return Err(String::from_str("iron_shell: usage: delete <folder|file> <name>"));
    }
    match fs_kind(&args[0]) {
        Some(k) => Ok((k, args[1].clone())),
        None => Err(unknown_target(&args[0])),
    }
}

/// What `delete` prints when the file system refuses.
pub open spec fn delete_failed_message(k: FsKind, name: Seq<char>, err: Seq<char>) -> Seq<char> {
    "iron_shell: failed to delete "@ + kind_word(k) + " "@ + name + ": "@ + err
}

pub fn delete_failed(k: FsKind, name: &str, err: &str) -> (m: String)
    ensures
        m@ == delete_failed_message(k, name@, err@),
{
    let mut m = String::from_str("iron_shell: failed to delete ");
    m.append(kind_name(k).as_str());
    m.append(" ");
    m.append(name);
    m.append(": ");
    m.append(err);
    m
}

pub open spec fn list_usage() -> Seq<char> {
    "iron_shell: usage: list folder [path]"@
}

/// `list folder [path]`: the folder to list, the current one by default.
pub open spec fn list_spec(args: Seq<Seq<char>>) -> Result<Seq<char>, Seq<char>> {
    if args.len() == 0 || args[0] != "folder"@ {
        Err(list_usage())
    } else if args.len() > 1 {
        Ok(args[1])
    } else {
        Ok("."@)
    }
}

/// `list folder [path]`: the folder to list, or the message that refuses
/// the arguments.
pub fn list(args: &[String]) -> (res: Result<String, String>)
    ensures
        path_view(res) == list_spec(texts(args@)),
{
    if args.len() == 0 || !is_word(&args[0], "folder") {
        return Err(String::from_str("iron_shell: usage: list folder [path]"));
    }
    if args.len() > 1 {
        Ok(args[1].clone())
    } else {
        Ok(String::from_str("."))
    }
}

/// The names, each followed by a line break.
pub open spec fn name_lines(names: Seq<Seq<char>>) -> Seq<char>
    decreases names.len(),
{
    if names.len() == 0 {
        Seq::empty()
    } else {
        name_lines(names.drop_last()) + names.last() + seq!['\n']
    }
}

/// What `list` prints: the names of the entries, one per line, without the
/// whitespace that ends the last.
pub fn list_output(names: &Vec<String>) -> (out: String)
    ensures
        out@ == trim_end_spec(name_lines(texts(names@))),
{
    let mut lines = String::new();
    let mut i: usize = 0;
    while i < names.len()
        invariant
            i <= names.len(),
            lines@ == name_lines(texts(names@.take(i as int))),
        decreases names.len() - i,
    {
        let ghost before = lines@;
        lines.append(names[i].as_str());
        lines.push('\n');
        assert(texts(names@.take(i + 1)).drop_last() =~= texts(names@.take(i as int)));
        assert(texts(names@.take(i + 1)).last() == names@[i as int]@);
        i = i + 1;
    }
    assert(names@.take(names.len() as int) =~= names@);
    trim_end(lines.as_str())
}

/// What `list` prints when the folder cannot be read.
pub open spec fn list_failed_message(path: Seq<char>, err: Seq<char>) -> Seq<char> {
    "iron_shell: failed to list folder "@ + path + ": "@ + err
}

pub fn list_failed(path: &str, err: &str) -> (m: String)
    ensures
        m@ == list_failed_message(path@, err@),
{
    let mut m = String::from_str("iron_shell: failed to list folder ");
    m.append(path);
    m.append(": ");
    m.append(err);
    m
}

pub open spec fn read_usage() -> Seq<char> {
    "iron_shell: usage: read file <name>"@
}

/// `read file <name>`: the file to read.
pub open spec fn read_spec(args: Seq<Seq<char>>) -> Result<Seq<char>, Seq<char>> {
    if args.len() < 2 || args[0] != "file"@ {
        Err(read_usage())
    } else {
        Ok(args[1])
    }
}

/// `read file <name>`: the file whose text to print, or the message that
/// refuses the arguments.
pub fn read(args: &[String]) -> (res: Result<String, String>)
    ensures
        path_view(res) == read_spec(texts(args@)),
{
    if args.len() < 2 || !is_word(&args[0], "file") {
        return Err(String::from_str("iron_shell: usage: read file <name>"));
    }
    Ok(args[1].clone())
}

/// What `read` prints when the file cannot be read.
pub open spec fn read_failed_message(name: Seq<char>, err: Seq<char>) -> Seq<char> {
    "iron_shell: failed to read file "@ + name + ": "@ + err
}

pub fn read_failed(name: &str, err: &str) -> (m: String)
    ensures
        m@ == read_failed_message(name@, err@),
{
    let mut m = String::from_str("iron_shell: failed to read file ");
    m.append(name);
    m.append(": ");
    m.append(err);
    m
}

pub open spec fn copy_usage() -> Seq<char> {
    "iron_shell: usage: copy <file|folder> <src> <dest>"@
}

/// `copy <file|folder> <src> <dest>`: what to copy where.
pub open spec fn copy_spec(args: Seq<Seq<char>>) -> Result<(FsKind, Seq<char>, Seq<char>), Seq<char>> {
    if args.len() < 3 {
        Err(copy_usage())
    } else {
        match kind_of(args[0]) {
            Some(k) => Ok((k, args[1], args[2])),
            None => Err(unknown_target_message(args[0])),
        }
    }
}

/// `copy <file|folder> <src> <dest>`: the kind, source and destination, or
/// the message that refuses the arguments. A folder is copied with all it
/// holds.
pub fn copy(args: &[String]) -> (res: Result<(FsKind, String, String), String>)
    ensures
        pair_view(res) == copy_spec(texts(args@)),
{
    if args.len() < 3 {
        return Err(String::from_str("iron_shell: usage: copy <file|folder> <src> <dest>"));
    }
    match fs_kind(&args[0]) {
        Some(k) => Ok((k, args[1].clone(), args[2].clone())),
        None => Err(unknown_target(&args[0])),
    }
}

/// What `copy` prints when the file system refuses.
pub open spec fn copy_failed_message(k: FsKind, src: Seq<char>, dest: Seq<char>, err: Seq<char>) -> Seq<char> {
    "iron_shell: failed to copy "@ + kind_word(k) + " from "@ + src + " to "@ + dest + ": "@ + err
}

pub fn copy_failed(k: FsKind, src: &str, dest: &str, err: &str) -> (m: String)
    ensures
        m@ == copy_failed_message(k, src@, dest@, err@),
{
    let mut m = String::from_str("iron_shell: failed to copy ");
    m.append(kind_name(k).as_str());
    m.append(" from ");
    m.append(src);
    m.append(" to ");
    m.append(dest);
    m.append(": ");
    m.append(err);
    m
}

pub open spec fn move_usage() -> Seq<char> {
    "iron_shell: usage: move <file|folder> <src> <dest>"@
}

/// `move <file|folder> <src> <dest>`: what to move where.
pub open spec fn move_spec(args: Seq<Seq<char>>) -> Result<(FsKind, Seq<char>, Seq<char>), Seq<char>> {
    if args.len() < 3 {
        Err(move_usage())
    } else {
        match kind_of(args[0]) {
            Some(k) => Ok((k, args[1], args[2])),
            None => Err(unknown_target_message(args[0])),
        }
    }
}

/// `move <file|folder> <src> <dest>`: the kind, source and destination of
/// the move, or the message that refuses the arguments.
pub fn move_cmd(args: &[String]) -> (res: Result<(FsKind, String, String), String>)
    ensures
        pair_view(res) == move_spec(texts(args@)),
{
    if args.len() < 3 {
        return Err(String::from_str("iron_shell: usage: move <file|folder> <src> <dest>"));
    }
    match fs_kind(&args[0]) {
        Some(k) => Ok((k, args[1].clone(), args[2].clone())),
        None => Err(unknown_target(&args[0])),
    }
}

/// `rename <file|folder> <src> <dest>` is `move` under another name.
pub fn rename(args: &[String]) -> (res: Result<(FsKind, String, String), String>)
    ensures
        pair_view(res) == move_spec(texts(args@)),
{
    move_cmd(args)
}

/// What `move` and `rename` print when the file system refuses.
pub open spec fn move_failed_message(k: FsKind, src: Seq<char>, dest: Seq<char>, err: Seq<char>) -> Seq<char> {
    "iron_shell: failed to move "@ + kind_word(k) + " from "@ + src + " to "@ + dest + ": "@ + err
}

pub fn move_failed(k: FsKind, src: &str, dest: &str, err: &str) -> (m: String)
    ensures
        m@ == move_failed_message(k, src@, dest@, err@),
{
    let mut m = String::from_str("iron_shell: failed to move ");
    m.append(kind_name(k).as_str());
    m.append(" from ");
    m.append(src);
    m.append(" to ");
    m.append(dest);
    m.append(": ");
    m.append(err);
    m
}

/// The name `hi` greets: `USERNAME`, else `USER`, else "there".
pub open spec fn greeted_name(username: Option<Seq<char>>, user: Option<Seq<char>>) -> Seq<char> {
    match username {
        Some(n) => n,
        None => match user {
            Some(n) => n,
            None => "there"@,
        },
    }
}

/// `hi`: greets the user; `username` and `user` are the values of the
/// variables `USERNAME` and `USER`.
pub fn hi(username: Option<String>, user: Option<String>) -> (res: (bool, String))
    ensures
        res.0 == true,
        res.1@ == "hii "@ + greeted_name(username.deep_view(), user.deep_view()),
{
    let name = match username {
        Some(n) => n,
        None => match user {
            Some(n) => n,
            None => String::from_str("there"),
        },
    };
    let mut m = String::from_str("hii ");
    m.append(name.as_str());
    (true, m)
}


/// The words `folder` and `file` name their kinds, and no other word names
/// a kind.
pub proof fn law_kind_words(w: Seq<char>, k: FsKind)
    ensures
        (kind_of(w) == Some(k)) <==> (w == kind_word(k)),
        "folder"@ != "file"@,
{
    reveal_strlit("folder");
    reveal_strlit("file");
    assert("folder"@.len() == 6 && "file"@.len() == 4);
}

/// `create` asks for something exactly when it has a kind word and a name;
/// it asks for the kind its first word names and the name that follows.
pub proof fn law_create_request(args: Seq<Seq<char>>)
    ensures
        (create_spec(args) is Ok) == (args.len() >= 2 && (args[0] == "folder"@ || args[0] == "file"@)),
        create_spec(args) matches Ok((k, n)) ==> kind_word(k) == args[0] && n == args[1],
{
    law_kind_words(args[0], FsKind::Folder);
    law_kind_words(args[0], FsKind::File);
}

/// `delete` asks for something exactly when it has a kind word and a name;
/// it asks for the kind its first word names and the name that follows.
pub proof fn law_delete_request(args: Seq<Seq<char>>)
    ensures
        (delete_spec(args) is Ok) == (args.len() >= 2 && (args[0] == "folder"@ || args[0] == "file"@)),
        delete_spec(args) matches Ok((k, n)) ==> kind_word(k) == args[0] && n == args[1],
{
    law_kind_words(args[0], FsKind::Folder);
    law_kind_words(args[0], FsKind::File);
}

/// `copy` asks for something exactly when it has a kind word, a source and
/// a destination; it asks for the kind its first word names, from the
/// source to the destination.
pub proof fn law_copy_request(args: Seq<Seq<char>>)
    ensures
        (copy_spec(args) is Ok) == (args.len() >= 3 && (args[0] == "folder"@ || args[0] == "file"@)),
        copy_spec(args) matches Ok((k, a, b)) ==> kind_word(k) == args[0] && a == args[1] && b == args[2],
{
    law_kind_words(args[0], FsKind::Folder);
    law_kind_words(args[0], FsKind::File);
}

/// `move` and `rename` ask for something exactly when they have a kind
/// word, a source and a destination; they ask for the kind the first word
/// names, from the source to the destination.
pub proof fn law_move_request(args: Seq<Seq<char>>)
    ensures
        (move_spec(args) is Ok) == (args.len() >= 3 && (args[0] == "folder"@ || args[0] == "file"@)),
        move_spec(args) matches Ok((k, a, b)) ==> kind_word(k) == args[0] && a == args[1] && b == args[2],
{
    law_kind_words(args[0], FsKind::Folder);
    law_kind_words(args[0], FsKind::File);
}

/// One more name adds that name and a line break at the end, whatever the
/// name is: no name is left out or changed.
pub proof fn law_name_lines_push(names: Seq<Seq<char>>, w: Seq<char>)
    ensures
        name_lines(names.push(w)) == name_lines(names) + w + seq!['\n'],
{
    assert(names.push(w).drop_last() =~= names);
}

/// The lines of `a` then `b` are the lines of `a` followed by those of `b`.
pub proof fn law_name_lines_concat(a: Seq<Seq<char>>, b: Seq<Seq<char>>)
    ensures
        name_lines(a + b) == name_lines(a) + name_lines(b),
    decreases b.len(),
{
    if b.len() == 0 {
        assert(a + b =~= a);
        assert(name_lines(a) + name_lines(b) =~= name_lines(a));
    } else {
        law_name_lines_concat(a, b.drop_last());
        assert((a + b).drop_last() =~= a + b.drop_last());
        assert(name_lines(a + b) =~= name_lines(a) + name_lines(b));
    }
}

/// The lines of the names take one character more than each name.
pub open spec fn lines_len(names: Seq<Seq<char>>) -> int
    decreases names.len(),
{
    if names.len() == 0 {
        0
    } else {
        lines_len(names.drop_last()) + names.last().len() + 1
    }
}

/// `list` prints every name, each with its line break: the length of the
/// lines is the sum over the names of their lengths plus one.
pub proof fn law_name_lines_len(names: Seq<Seq<char>>)
    ensures
        name_lines(names).len() == lines_len(names),
    decreases names.len(),
{
    if names.len() > 0 {
        law_name_lines_len(names.drop_last());
    }
}

/// Where the last name does not end in whitespace, `list` prints every
/// name, in order, one per line, and only the last line break goes.
pub proof fn law_list_output_keeps_names(names: Seq<Seq<char>>)
    requires
        names.len() > 0,
        names.last().len() > 0,
        !is_whitespace(names.last().last()),
    ensures
        trim_end_spec(name_lines(names)) == name_lines(names.drop_last()) + names.last(),
{
    let x = name_lines(names.drop_last()) + names.last();
    assert((x + seq!['\n']).drop_last() =~= x);
    assert(is_whitespace('\n'));
    assert(x.last() == names.last().last());
    assert(name_lines(names) == x + seq!['\n']);
    assert((x + seq!['\n']).last() == '\n');
    assert(trim_end_spec(x + seq!['\n']) == trim_end_spec(x));
    assert(trim_end_spec(x) == x);
}

} // verus!
