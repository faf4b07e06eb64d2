//! Construction of the external command that one task runs.
//!
//! Both input strategies invoke the command as `<shell> -c <text>`. Stdin
//! delivery uses the command text verbatim and asks for the file's contents
//! on the child's standard input; filename delivery substitutes the file's
//! path for every `{}` in the text and leaves standard input alone.
use vstd::prelude::*;

use crate::input_mode::InputMode;
use crate::outcome::TaskError;
use crate::template::subst;
use crate::template::substitute;

verus! {

/// A fully formed external command, ready to be spawned: a program, its
/// arguments, and whether the source file's contents must be wired to the
/// child's standard input.
pub struct Invocation {
    /// The program to spawn: the shell.
    pub program: String,
    /// The arguments handed to the program.
    pub args: Vec<String>,
    /// Whether the source file's contents are to be streamed to the
    /// child's standard input.
    pub reads_stdin: bool,
}

/// `inv` invokes `shell` with exactly the two arguments `-c` and `text`.
pub open spec fn is_shell_invocation(inv: Invocation, shell: Seq<char>, text: Seq<char>) -> bool {
    &&& inv.program@ == shell
    &&& inv.args@.len() == 2
    &&& inv.args@[0]@ == "-c"@
    &&& inv.args@[1]@ == text
}

/// Builds the stdin-delivery command: the command text is used verbatim and
/// the file's contents are streamed to the child's standard input.
pub struct StdinRunner {
    pub shell: String,
    pub command: String,
}

impl StdinRunner {
    pub fn new(shell: String, command: String) -> (r: Self)
        ensures
            r.shell == shell,
            r.command == command,
    {
        StdinRunner { shell, command }
    }

    /// The command for one file: the text verbatim, standard input wired to
    /// the file. Opening the file is the caller's business; this only says
    /// that it must be opened.
    pub fn get_command(&self) -> (c: Invocation)
        ensures
            is_shell_invocation(c, self.shell@, self.command@),
            c.reads_stdin,
    {
        let mut args: Vec<String> = Vec::new();
        args.push("-c".to_owned());
        args.push(self.command.clone());
        Invocation { program: self.shell.clone(), args, reads_stdin: true }
    }
}

/// Builds the filename-delivery command: the file's path replaces every
/// `{}` in the command text, and standard input is left alone.
pub struct FilenameRunner {
    pub shell: String,
    pub command: String,
}

impl FilenameRunner {
    pub fn new(shell: String, command: String) -> (r: Self)
        ensures
            r.shell == shell,
            r.command == command,
    {
        FilenameRunner { shell, command }
    }

    /// The command for one file, whose path is handed in as text, or `None`
    /// where the path is not representable as text. Exactly in that case the
    /// task fails with an unsupported-path error; otherwise every `{}` in
    /// the command text is replaced with the path and nothing else in the
    /// text is altered.
    pub fn get_command(&self, source_path: Option<&str>) -> (r: Result<Invocation, TaskError>)
        ensures
            match source_path {
                Some(p) => {
                    &&& r is Ok
                    &&& is_shell_invocation(r->Ok_0, self.shell@, subst(self.command@, p@))
                    &&& !r->Ok_0.reads_stdin
                },
                None => r matches Err(e) && e is UnsupportedPath,
            },
    {
        match source_path {
            Some(p) => {
                let text = substitute(self.command.as_str(), p);
                let mut args: Vec<String> = Vec::new();
                args.push("-c".to_owned());
                args.push(text);
                Ok(Invocation { program: self.shell.clone(), args, reads_stdin: false })
            },
            None => Err(TaskError::UnsupportedPath),
        }
    }
}

/// The input strategy chosen for a whole run: a closed choice between the
/// two delivery variants.
pub enum Runner {
    Stdin(StdinRunner),
    Filename(FilenameRunner),
}

impl Runner {
    /// The runner that a configuration's input mode selects, carrying the
    /// configured shell and command text.
    pub fn for_mode(mode: InputMode, shell: String, command: String) -> (r: Runner)
        ensures
            mode is Stdin ==> (r matches Runner::Stdin(x) && x.shell == shell && x.command
                == command),
            mode is Filename ==> (r matches Runner::Filename(x) && x.shell == shell && x.command
                == command),
    {
        match mode {
            InputMode::Stdin => Runner::Stdin(StdinRunner::new(shell, command)),
            InputMode::Filename => Runner::Filename(FilenameRunner::new(shell, command)),
        }
    }

    /// The command for one file under this run's strategy. Stdin delivery
    /// never fails here and ignores the path; filename delivery fails
    /// exactly on a path that is not representable as text (handed in as
    /// `None`).
    pub fn get_command(&self, source_path: Option<&str>) -> (r: Result<Invocation, TaskError>)
        ensures
            match self {
                Runner::Stdin(inner) => {
                    &&& r is Ok
                    &&& is_shell_invocation(r->Ok_0, inner.shell@, inner.command@)
                    &&& r->Ok_0.reads_stdin
                },
                Runner::Filename(inner) => match source_path {
                    Some(p) => {
                        &&& r is Ok
                        &&& is_shell_invocation(r->Ok_0, inner.shell@, subst(inner.command@, p@))
                        &&& !r->Ok_0.reads_stdin
                    },
                    None => r matches Err(e) && e is UnsupportedPath,
                },
            },
    {
        match self {
            Runner::Stdin(inner) => Ok(inner.get_command()),
            Runner::Filename(inner) => inner.get_command(source_path),
        }
    }
}

} // verus!
