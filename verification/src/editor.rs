//! Hand-off of a source location to an external editor: building the
//! editor invocation from an editor command line, and the outcome of
//! running it.

use vstd::prelude::*;
use std::path::Path;
use crate::text::{
    decimal, last_segment_start, path_file_name, push_char, push_decimal, push_signed_decimal,
    signed_decimal, str_eq,
};

verus! {

/// Source location that can be handed off to an external editor.
#[derive(Debug, Clone, PartialEq, Eq)]
pub struct EditorTarget {
    /// Absolute path to the local worktree file.
    pub path: String,
    /// One-based source line to request from editors that support it.
    pub line: Option<u32>,
}

/// Fully expanded editor invocation: the program and its arguments, kept
/// apart so that no shell is involved.
#[derive(Debug, Clone, PartialEq, Eq)]
pub struct EditorCommand {
    /// Executable name or path from the editor command line, or `vi`.
    pub program: String,
    /// Arguments from the editor command line, then the target file and
    /// the line syntax, if any.
    pub args: Vec<String>,
}

impl View for EditorCommand {
    type V = (Seq<char>, Seq<Seq<char>>);

    open spec fn view(&self) -> (Seq<char>, Seq<Seq<char>>) {
        (self.program@, self.args@.map_values(|a: String| a@))
    }
}

/// Line-navigation syntax family of a recognized editor executable.
#[derive(Debug, Clone, Copy, PartialEq, Eq)]
pub enum EditorFamily {
    /// Opens a source line with `editor +NN file`.
    PlusLine,
    /// Opens a source line with `editor --goto file:NN`.
    GotoLine,
    /// Has no known line syntax; opens with `editor file`.
    Plain,
}

/// Family of an editor, by the name of its executable.
pub open spec fn family_of_name(name: Seq<char>) -> EditorFamily {
    if name == "vi"@ || name == "vim"@ || name == "nvim"@ || name == "nano"@ {
        EditorFamily::PlusLine
    } else if name == "code"@ || name == "code-insiders"@ || name == "codium"@ || name
        == "cursor"@ {
        EditorFamily::GotoLine
    } else {
        EditorFamily::Plain
    }
}

/// Family of an editor program: by its file name, or by the whole program
/// string when it has none.
pub open spec fn family_of_program(program: Seq<char>) -> EditorFamily {
    match path_file_name(program) {
        Some(name) => family_of_name(name),
        None => family_of_name(program),
    }
}

/// A program string whose file name Windows may read otherwise than the
/// `/`-separated reading of `path_file_name`: one holding `\` or `:`, or
/// starting with `//`.
pub open spec fn windows_path_form(p: Seq<char>) -> bool {
    ||| p.contains('\\')
    ||| p.contains(':')
    ||| (p.len() >= 2 && p[0] == '/' && p[1] == '/')
}

/// `Path::file_name` from std, as text: the final component of `program`
/// read as a path of the platform. Outside the Windows forms it is the
/// `/`-separated reading `path_file_name`.
#[verifier::external_body]
fn std_file_name(program: &str) -> (r: Option<&str>)
    ensures
        !windows_path_form(program@) ==> match r {
            Some(n) => path_file_name(program@) == Some(n@),
            None => path_file_name(program@) is None,
        },
{
    Path::new(program).file_name().and_then(|name| name.to_str())
}

/// Family of an editor program, given the file name that the platform
/// reads in it: by that name, or by the whole program string when it has
/// none.
pub fn family_for_name(program: &str, file_name: Option<&str>) -> (f: EditorFamily)
    ensures
        f == family_of_name(
            match file_name {
                Some(n) => n@,
                None => program@,
            },
        ),
{
    let n = match file_name {
        Some(n) => n,
        None => program,
    };
    if str_eq(n, "vi") || str_eq(n, "vim") || str_eq(n, "nvim") || str_eq(n, "nano") {
        EditorFamily::PlusLine
    } else if str_eq(n, "code") || str_eq(n, "code-insiders") || str_eq(n, "codium") || str_eq(
        n,
        "cursor",
    ) {
        EditorFamily::GotoLine
    } else {
        EditorFamily::Plain
    }
}

/// Recognizes the editor family of `program` from the file name that
/// `Path::file_name` reads in it (see `family_for_name`). Outside the
/// Windows forms that is `family_of_program`.
pub fn editor_family(program: &str) -> (f: EditorFamily)
    ensures
        !windows_path_form(program@) ==> f == family_of_program(program@),
{
    family_for_name(program, std_file_name(program))
}

/// What `shlex::split` gives for a command line: the words, or none when
/// the line ends inside a quotation or right after an unescaped backslash.
pub uninterp spec fn shlex_split(line: Seq<char>) -> Option<Seq<Seq<char>>>;

/// The characters that separate words on a shell command line.
pub open spec fn is_shell_blank(c: char) -> bool {
    c == ' ' || c == '\t' || c == '\n'
}

/// The views of an optional list of words.
pub open spec fn words_view(words: Option<Vec<String>>) -> Option<Seq<Seq<char>>> {
    match words {
        Some(w) => Some(w@.map_values(|s: String| s@)),
        None => None,
    }
}

/// `shlex::split`: splits a command line into words with POSIX shell
/// quoting rules. The result is named `shlex_split`; a line of nothing but
/// spaces, tabs and newlines (or an empty one) gives no words.
#[verifier::external_body]
fn split_words(line: &str) -> (r: Option<Vec<String>>)
    ensures
        words_view(r) == shlex_split(line@),
        (forall|i: int| 0 <= i < line@.len() ==> is_shell_blank(#[trigger] line@[i]))
            ==> words_view(r) == Some(Seq::<Seq<char>>::empty()),
{
    shlex::split(line)
}

/// The program and leading arguments from a split command line: the words
/// when there is at least one, else `vi` alone.
pub open spec fn command_words(words: Option<Seq<Seq<char>>>) -> Seq<Seq<char>> {
    match words {
        Some(w) => if w.len() > 0 {
            w
        } else {
            seq!["vi"@]
        },
        None => seq!["vi"@],
    }
}

/// The arguments that name the target: `+NN path` for the plus-line
/// family, `--goto path:NN` for the goto family, and the path alone when
/// there is no line or no known line syntax.
pub open spec fn target_args(family: EditorFamily, path: Seq<char>, line: Option<u32>) -> Seq<
    Seq<char>,
> {
    match line {
        Some(l) => match family {
            EditorFamily::PlusLine => seq![seq!['+'] + decimal(l as nat), path],
            EditorFamily::GotoLine => seq!["--goto"@, path + seq![':'] + decimal(l as nat)],
            EditorFamily::Plain => seq![path],
        },
        None => seq![path],
    }
}

/// A name that can be a path's final component: not empty, without `/`,
/// and neither `.` nor `..`.
pub open spec fn is_plain_name(name: Seq<char>) -> bool {
    &&& name.len() > 0
    &&& forall|i: int| 0 <= i < name.len() ==> name[i] != '/'
    &&& name != seq!['.']
    &&& name != seq!['.', '.']
}

proof fn lemma_segment_start_after_slash(dir: Seq<char>, name: Seq<char>)
    requires
        forall|i: int| 0 <= i < name.len() ==> name[i] != '/',
    ensures
        last_segment_start(dir + seq!['/'] + name) == dir.len() + 1,
    decreases name.len(),
{
    let p = dir + seq!['/'] + name;
    if name.len() > 0 {
        assert(p.drop_last() == dir + seq!['/'] + name.drop_last());
        lemma_segment_start_after_slash(dir, name.drop_last());
    } else {
        assert(p == dir.push('/'));
    }
}

/// An editor is recognized by the name of its executable, whichever
/// directory the editor command line gives it in.
pub proof fn law_family_by_file_name(dir: Seq<char>, name: Seq<char>)
    requires
        is_plain_name(name),
    ensures
        path_file_name(dir + seq!['/'] + name) == Some(name),
        path_file_name(name) == Some(name),
        family_of_program(dir + seq!['/'] + name) == family_of_name(name),
        family_of_program(name) == family_of_name(name),
{
    let p = dir + seq!['/'] + name;
    lemma_segment_start_after_slash(dir, name);
    assert(p.subrange(dir.len() + 1int, p.len() as int) =~= name);
    assert(p.last() == name.last());
    lemma_last_segment_start_of_name(name);
    assert(name.subrange(0, name.len() as int) =~= name);
    assert(name[name.len() - 1] != '/');
}

proof fn lemma_last_segment_start_of_name(name: Seq<char>)
    requires
        forall|i: int| 0 <= i < name.len() ==> name[i] != '/',
    ensures
        last_segment_start(name) == 0,
    decreases name.len(),
{
    if name.len() > 0 {
        lemma_last_segment_start_of_name(name.drop_last());
    }
}

/// The invocation for split command-line words and a target, for an editor
/// of the given family.
pub open spec fn command_in_family(
    words: Option<Seq<Seq<char>>>,
    path: Seq<char>,
    line: Option<u32>,
    family: EditorFamily,
) -> (Seq<char>, Seq<Seq<char>>) {
    let parts = command_words(words);
    (parts[0], parts.drop_first() + target_args(family, path, line))
}

/// The invocation for split command-line words and a target, with the
/// family read from the program's `/`-separated file name.
pub open spec fn command_for(words: Option<Seq<Seq<char>>>, path: Seq<char>, line: Option<u32>) -> (
    Seq<char>,
    Seq<Seq<char>>,
) {
    command_in_family(words, path, line, family_of_program(command_words(words)[0]))
}

impl EditorCommand {
    /// Builds an invocation from an editor command line, split with
    /// shell-like quoting rules (the command is still run without a shell).
    /// An empty or unparsable command line falls back to `vi`. Known
    /// editors receive their line-navigation syntax; unknown editors
    /// receive only the path.
    pub fn from_editor(editor: &str, target: &EditorTarget) -> (c: Self)
        ensures
            exists|f: EditorFamily|
                c@ == command_in_family(shlex_split(editor@), target.path@, target.line, f),
            !windows_path_form(command_words(shlex_split(editor@))[0]) ==> c@ == command_for(
                shlex_split(editor@),
                target.path@,
                target.line,
            ),
            (forall|i: int| 0 <= i < editor@.len() ==> is_shell_blank(#[trigger] editor@[i])) ==> c@
                == command_for(None, target.path@, target.line),
    {
        let words = split_words(editor);
        proof {
            reveal_strlit("vi");
            assert(!windows_path_form("vi"@));
        }
        Self::from_words(words, target)
    }

    /// Builds an invocation from the words of an already split editor
    /// command line (`None` when it could not be split).
    pub fn from_words(words: Option<Vec<String>>, target: &EditorTarget) -> (c: Self)
        ensures
            exists|f: EditorFamily|
                c@ == command_in_family(words_view(words), target.path@, target.line, f),
            !windows_path_form(command_words(words_view(words))[0]) ==> c@ == command_for(
                words_view(words),
                target.path@,
                target.line,
            ),
    {
        let ghost wv = words_view(words);
        let mut parts: Vec<String> = match words {
            Some(w) => if w.len() > 0 {
                w
            } else {
                vec![String::from_str("vi")]
            },
            None => vec![String::from_str("vi")],
        };
        let ghost parts0 = parts@.map_values(|s: String| s@);
        assert(parts0 == command_words(wv));
        let program = parts.remove(0);
        assert(parts@.map_values(|s: String| s@) == parts0.drop_first());
        let family = editor_family(program.as_str());
        let ghost before = parts@.map_values(|s: String| s@);
        let ghost path = target.path@;
        match target.line {
            Some(line) => match family {
                EditorFamily::PlusLine => {
                    let mut plus = String::new();
                    push_char(&mut plus, '+');
                    push_decimal(&mut plus, line as u64);
                    assert(plus@ =~= seq!['+'] + decimal(line as nat));
                    parts.push(plus);
                    parts.push(target.path.clone());
                    assert(parts@.map_values(|s: String| s@) =~= before + seq![
                        seq!['+'] + decimal(line as nat),
                        path,
                    ]);
                },
                EditorFamily::GotoLine => {
                    let goto = String::from_str("--goto");
                    parts.push(goto);
                    let mut location = target.path.clone();
                    push_char(&mut location, ':');
                    push_decimal(&mut location, line as u64);
                    assert(location@ =~= path + seq![':'] + decimal(line as nat));
                    parts.push(location);
                    assert(parts@.map_values(|s: String| s@) =~= before + seq![
                        "--goto"@,
                        path + seq![':'] + decimal(line as nat),
                    ]);
                },
                EditorFamily::Plain => {
                    parts.push(target.path.clone());
                    assert(parts@.map_values(|s: String| s@) =~= before + seq![path]);
                },
            },
            None => {
                parts.push(target.path.clone());
                assert(parts@.map_values(|s: String| s@) =~= before + seq![path]);
            },
        }
        let c = EditorCommand { program, args: parts };
        assert(c@ == command_in_family(wv, target.path@, target.line, family));
        c
    }
}

/// The table of known editors: the plus-line family is exactly `vi`, `vim`,
/// `nvim` and `nano`; the goto family exactly `code`, `code-insiders`,
/// `codium` and `cursor`; every other name has no known line syntax.
pub proof fn law_family_table(name: Seq<char>)
    ensures
        (family_of_name(name) == EditorFamily::PlusLine) <==> (name == "vi"@ || name == "vim"@
            || name == "nvim"@ || name == "nano"@),
        (family_of_name(name) == EditorFamily::GotoLine) <==> (name == "code"@ || name
            == "code-insiders"@ || name == "codium"@ || name == "cursor"@),
        (family_of_name(name) == EditorFamily::Plain) <==> !(name == "vi"@ || name == "vim"@
            || name == "nvim"@ || name == "nano"@ || name == "code"@ || name == "code-insiders"@
            || name == "codium"@ || name == "cursor"@),
{
    reveal_strlit("vi");
    reveal_strlit("vim");
    reveal_strlit("nvim");
    reveal_strlit("nano");
    reveal_strlit("code");
    reveal_strlit("code-insiders");
    reveal_strlit("codium");
    reveal_strlit("cursor");
    assert("vi"@[0] == 'v' && "vim"@[0] == 'v' && "nvim"@[0] == 'n' && "nano"@[0] == 'n');
    assert("code"@[0] == 'c' && "code-insiders"@[0] == 'c' && "codium"@[0] == 'c'
        && "cursor"@[0] == 'c');
    if name == "code"@ || name == "code-insiders"@ || name == "codium"@ || name == "cursor"@ {
        assert(name[0] == 'c');
        assert(name != "vi"@ && name != "vim"@ && name != "nvim"@ && name != "nano"@);
    }
}

/// An editor whose executable name is not in the table gets no line
/// syntax: after the words of its command line comes the target path and
/// nothing else, whatever the line.
pub proof fn law_unknown_editor_gets_path_only(
    dir: Seq<char>,
    program: Seq<char>,
    rest: Seq<Seq<char>>,
    path: Seq<char>,
    line: Option<u32>,
)
    requires
        is_plain_name(program),
        !(program == "vi"@ || program == "vim"@ || program == "nvim"@ || program == "nano"@
            || program == "code"@ || program == "code-insiders"@ || program == "codium"@
            || program == "cursor"@),
    ensures
        command_for(Some(seq![program] + rest), path, line).1 == rest + seq![path],
        command_for(Some(seq![dir + seq!['/'] + program] + rest), path, line).1 == rest
            + seq![path],
{
    law_family_table(program);
    law_family_by_file_name(dir, program);
    let words = seq![program] + rest;
    let words2 = seq![dir + seq!['/'] + program] + rest;
    assert(words[0] == program);
    assert(words.drop_first() =~= rest);
    assert(words2[0] == dir + seq!['/'] + program);
    assert(words2.drop_first() =~= rest);
}

/// An unset, empty or unparsable editor command line runs `vi`, with the
/// target as its only arguments.
pub proof fn law_fallback_to_vi(words: Option<Seq<Seq<char>>>, path: Seq<char>, line: Option<u32>)
    requires
        words is None || words->0.len() == 0,
    ensures
        command_for(words, path, line).0 == "vi"@,
        command_for(words, path, line).1 == target_args(family_of_program("vi"@), path, line),
{
    assert(seq!["vi"@].drop_first() =~= Seq::<Seq<char>>::empty());
}

/// The words after the program in the editor command line are kept, in
/// order, at the front of the arguments, and the target arguments follow.
pub proof fn law_editor_args_preserved(words: Seq<Seq<char>>, path: Seq<char>, line: Option<u32>)
    requires
        words.len() > 0,
    ensures
        command_for(Some(words), path, line).0 == words[0],
        command_for(Some(words), path, line).1.subrange(0, words.len() - 1) == words.drop_first(),
        command_for(Some(words), path, line).1.subrange(
            words.len() - 1,
            command_for(Some(words), path, line).1.len() as int,
        ) == target_args(family_of_program(words[0]), path, line),
{
    let args = command_for(Some(words), path, line).1;
    assert(args.subrange(0, words.len() - 1) =~= words.drop_first());
    assert(args.subrange(words.len() - 1, args.len() as int) =~= target_args(
        family_of_program(words[0]),
        path,
        line,
    ));
}

/// The target is always named: without a line, or for an editor with no
/// known line syntax, the path is the one and only target argument; with a
/// line, plus-line editors get `+NN` then the path and goto editors get
/// `--goto` then `path:NN`.
pub proof fn law_target_named(family: EditorFamily, path: Seq<char>, line: Option<u32>)
    ensures
        (line is None || family == EditorFamily::Plain) ==> target_args(family, path, line)
            == seq![path],
        line matches Some(l) ==> (family == EditorFamily::PlusLine ==> target_args(
            family,
            path,
            line,
        ) == seq![seq!['+'] + decimal(l as nat), path]),
        line matches Some(l) ==> (family == EditorFamily::GotoLine ==> target_args(
            family,
            path,
            line,
        ) == seq!["--goto"@, path + seq![':'] + decimal(l as nat)]),
{
}

/// Why handing control to the external editor failed.
#[derive(Debug, Clone, PartialEq, Eq)]
pub enum EditorError {
    /// The editor process could not be spawned; the message says why.
    Launch(String),
    /// The editor exited unsuccessfully, with this exit code (none when a
    /// signal ended it).
    Exit(Option<i32>),
}

/// The exit code, or `signal` when the process had none.
pub open spec fn status_label_spec(code: Option<i32>) -> Seq<char> {
    match code {
        Some(c) => signed_decimal(c as int),
        None => "signal"@,
    }
}

/// Label of an exit status in messages: the exit code, or `signal`.
pub fn status_label(code: Option<i32>) -> (s: String)
    ensures
        s@ == status_label_spec(code),
{
    match code {
        Some(c) => {
            let mut s = String::new();
            push_signed_decimal(&mut s, c);
            s
        },
        None => String::from_str("signal"),
    }
}

/// Outcome of opening a target in the editor, given what running the
/// prepared command gave: the exit code (none when a signal ended the
/// process), or the reason it could not be launched. Success is exit
/// code 0.
pub fn run_editor(run: Result<Option<i32>, String>) -> (r: Result<(), EditorError>)
    ensures
        match run {
            Ok(code) => if code == Some(0i32) {
                r is Ok
            } else {
                r == Err::<(), EditorError>(EditorError::Exit(code))
            },
            Err(msg) => r == Err::<(), EditorError>(EditorError::Launch(msg)),
        },
{
    match run {
        Ok(code) => match code {
            Some(0) => Ok(()),
            _ => Err(EditorError::Exit(code)),
        },
        Err(msg) => Err(EditorError::Launch(msg)),
    }
}

} // verus!
