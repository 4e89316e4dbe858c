//! Which shell the user runs, where its start-up files are, and the line of
//! that shell's language that puts a directory on `PATH`.

use vstd::prelude::*;
use vstd::string::{StrSliceExecFns, StringExecFns};

use crate::error::PathmanError;
use crate::text::{contains, is_infix};

verus! {

/// The shells whose start-up files this library knows how to edit.
#[derive(Debug, Clone, Copy, PartialEq, Eq, Structural)]
pub enum Shell {
    Bash,
    Zsh,
    Fish,
}

/// A shell together with the home directory its start-up files are found under.
pub struct CurrentShell {
    pub shell: Shell,
    pub home: String,
}

/// The shell that a value of the `SHELL` variable names: the first of `bash`,
/// `zsh` and `fish`, in that order, that occurs in it.
pub open spec fn shell_named_by(value: Seq<char>) -> Option<Shell> {
    if is_infix("bash"@, value) {
        Some(Shell::Bash)
    } else if is_infix("zsh"@, value) {
        Some(Shell::Zsh)
    } else if is_infix("fish"@, value) {
        Some(Shell::Fish)
    } else {
        None
    }
}

/// `name`, a relative path, placed under the directory `dir`: a `/` goes
/// between them unless `dir` is empty or already ends in one.
pub open spec fn joined(dir: Seq<char>, name: Seq<char>) -> Seq<char> {
    if dir.len() == 0 || dir.last() == '/' {
        dir + name
    } else {
        dir + seq!['/'] + name
    }
}

/// The start-up files of `shell` under `home`, most preferred first.
pub open spec fn config_candidates(shell: Shell, home: Seq<char>) -> Seq<Seq<char>> {
    match shell {
        Shell::Bash => seq![
            joined(home, ".bashrc"@),
            joined(home, ".bash_profile"@),
            joined(home, ".profile"@),
        ],
        Shell::Zsh => seq![joined(home, ".zshrc"@)],
        Shell::Fish => seq![joined(home, ".config/fish/config.fish"@)],
    }
}

/// Whether `found` reports the file at `i` as existing; entries past its end
/// count as missing.
pub open spec fn reported(found: Seq<bool>, i: int) -> bool {
    0 <= i < found.len() && found[i]
}

/// The first of `files`, from position `i` on, that `found` reports as existing.
pub open spec fn first_found_from(files: Seq<Seq<char>>, found: Seq<bool>, i: int) -> Option<
    Seq<char>,
>
    decreases files.len() - i,
{
    if i < 0 || i >= files.len() {
        None
    } else if reported(found, i) {
        Some(files[i])
    } else {
        first_found_from(files, found, i + 1)
    }
}

/// The line that puts `path` at the front of `PATH` in the language of `shell`.
pub open spec fn prepend_line(shell: Shell, path: Seq<char>) -> Seq<char> {
    match shell {
        Shell::Fish => "set -gx PATH \""@ + path + "\" $PATH"@,
        _ => "export PATH=\""@ + path + ":$PATH\""@,
    }
}

/// The line that puts `path` at the end of `PATH` in the language of `shell`.
pub open spec fn append_line(shell: Shell, path: Seq<char>) -> Seq<char> {
    match shell {
        Shell::Fish => "set -gx PATH $PATH \""@ + path + "\""@,
        _ => "export PATH=\"$PATH:"@ + path + "\""@,
    }
}

/// The line that puts a directory at the front of `PATH` and the line that puts
/// one at the end never coincide, whatever the two directories, as long as the
/// first does not begin with `$`.
pub proof fn lemma_prepend_and_append_lines_differ(shell: Shell, p: Seq<char>, q: Seq<char>)
    requires
        p.len() == 0 || p[0] != '$',
    ensures
        prepend_line(shell, p) != append_line(shell, q),
{
    reveal_strlit("set -gx PATH \"");
    reveal_strlit("set -gx PATH $PATH \"");
    reveal_strlit("export PATH=\"");
    reveal_strlit("export PATH=\"$PATH:");
    reveal_strlit(":$PATH\"");
    assert(prepend_line(shell, p)[13] != append_line(shell, q)[13]);
}

/// The user's home directory, as `home::home_dir` finds it.
///
/// Relies on `home::home_dir`, which reads the environment and the user
/// database: nothing is promised of its result.
#[verifier::external_body]
fn home_directory() -> (r: Option<String>) {
    home::home_dir().map(|p| p.to_string_lossy().to_string())
}

/// `name` placed under the directory `dir`.
fn join(dir: &str, name: &str) -> (r: String)
    ensures
        r@ == joined(dir@, name@),
{
    let n: usize = dir.unicode_len();
    let joined_dir = if n == 0 || dir.get_char(n - 1) == '/' {
        String::from_str(dir)
    } else {
        String::from_str(dir).concat("/")
    };
    proof {
        reveal_strlit("/");
    }
    joined_dir.concat(name)
}

impl Shell {
    /// The shell that a value of the `SHELL` variable names, if any.
    pub fn from_shell_var(value: &str) -> (r: Option<Shell>)
        ensures
            r == shell_named_by(value@),
    {
        if contains(value, "bash") {
            Some(Shell::Bash)
        } else if contains(value, "zsh") {
            Some(Shell::Zsh)
        } else if contains(value, "fish") {
            Some(Shell::Fish)
        } else {
            None
        }
    }
}

impl CurrentShell {
    /// The current shell, from the home directory found and the value of the
    /// `SHELL` variable (`None` where either is missing).
    pub fn resolve(home: Option<String>, shell_var: Option<String>) -> (r: Result<
        CurrentShell,
        PathmanError,
    >)
        ensures
            home is None ==> r == Err::<CurrentShell, _>(PathmanError::UnableToFindHomeDirectory),
            home is Some && shell_var is None ==> r == Err::<CurrentShell, _>(
                PathmanError::UnableToDetectShell,
            ),
            home is Some && shell_var is Some && shell_named_by(shell_var->0@) is None ==> r
                == Err::<CurrentShell, _>(PathmanError::UnsupportedShell(shell_var->0)),
            home is Some && shell_var is Some && shell_named_by(shell_var->0@) is Some ==> r is Ok
                && r->Ok_0.shell == shell_named_by(shell_var->0@)->0 && r->Ok_0.home
                == home->0,
    {
        let home = match home {
            Some(home) => home,
            None => return Err(PathmanError::UnableToFindHomeDirectory),
        };
        let value = match shell_var {
            Some(value) => value,
            None => return Err(PathmanError::UnableToDetectShell),
        };
        match Shell::from_shell_var(value.as_str()) {
            Some(shell) => Ok(CurrentShell { shell, home }),
            None => Err(PathmanError::UnsupportedShell(value)),
        }
    }

    /// Detects the current shell from the value of the `SHELL` variable
    /// (`None` where it is unset), looking up the home directory.
    pub fn detect(shell_var: Option<String>) -> (r: Result<CurrentShell, PathmanError>)
        ensures
            r is Err ==> r->Err_0 is UnableToFindHomeDirectory || r == CurrentShell::resolve_err(
                shell_var,
            ),
            r is Ok ==> shell_var is Some && shell_named_by(shell_var->0@) == Some(r->Ok_0.shell),
    {
        CurrentShell::resolve(home_directory(), shell_var)
    }

    /// The error that `resolve` ends in for this `SHELL` value once a home
    /// directory was found.
    pub open spec fn resolve_err(shell_var: Option<String>) -> Result<CurrentShell, PathmanError> {
        match shell_var {
            None => Err(PathmanError::UnableToDetectShell),
            Some(value) => Err(PathmanError::UnsupportedShell(value)),
        }
    }

    /// The start-up files of this shell, most preferred first.
    pub fn config_file_candidates(&self) -> (r: Vec<String>)
        ensures
            r.deep_view() == config_candidates(self.shell, self.home@),
    {
        let home = self.home.as_str();
        let r = match self.shell {
            Shell::Bash => vec![
                join(home, ".bashrc"),
                join(home, ".bash_profile"),
                join(home, ".profile"),
            ],
            Shell::Zsh => vec![join(home, ".zshrc")],
            Shell::Fish => vec![join(home, ".config/fish/config.fish")],
        };
        assert(r.deep_view() =~= config_candidates(self.shell, self.home@));
        r
    }

    /// The first start-up file that exists, where `found[i]` says whether the
    /// `i`-th of `config_file_candidates` exists.
    pub fn config_file_path(&self, found: &Vec<bool>) -> (r: Result<String, PathmanError>)
        ensures
            first_found_from(config_candidates(self.shell, self.home@), found@, 0) is None ==> r
                == Err::<String, _>(PathmanError::UnableToFindShellConfigFile),
            first_found_from(config_candidates(self.shell, self.home@), found@, 0) is Some ==> r is Ok
                && Some(r->Ok_0@) == first_found_from(
                config_candidates(self.shell, self.home@),
                found@,
                0,
            ),
    {
        let files = self.config_file_candidates();
        let ghost cands = config_candidates(self.shell, self.home@);
        let mut i: usize = 0;
        while i < files.len()
            invariant
                cands == config_candidates(self.shell, self.home@),
                files.deep_view() == cands,
                cands.len() == files@.len(),
                i <= files@.len(),
                first_found_from(cands, found@, i as int) == first_found_from(cands, found@, 0),
            decreases files@.len() - i,
        {
            if i < found.len() && found[i] {
                let file = files[i].clone();
                assert(files.deep_view()[i as int] == files@[i as int]@);
                return Ok(file);
            }
            i = i + 1;
        }
        Err(PathmanError::UnableToFindShellConfigFile)
    }

    /// The line that puts `path` at the front of `PATH` in this shell's
    /// language; `path` is `None` where the path is not valid Unicode.
    pub fn get_prepend_command(&self, path: Option<&str>) -> (r: Result<String, PathmanError>)
        ensures
            path is None ==> r == Err::<String, _>(PathmanError::UnableToConvertPathToString),
            path is Some ==> r is Ok && r->Ok_0@ == prepend_line(self.shell, path->0@),
    {
        let path = match path {
            Some(path) => path,
            None => return Err(PathmanError::UnableToConvertPathToString),
        };
        let line = match self.shell {
            Shell::Fish => String::from_str("set -gx PATH \"").concat(path).concat("\" $PATH"),
            _ => String::from_str("export PATH=\"").concat(path).concat(":$PATH\""),
        };
        Ok(line)
    }

    /// The line that puts `path` at the end of `PATH` in this shell's
    /// language; `path` is `None` where the path is not valid Unicode.
    pub fn get_append_command(&self, path: Option<&str>) -> (r: Result<String, PathmanError>)
        ensures
            path is None ==> r == Err::<String, _>(PathmanError::UnableToConvertPathToString),
            path is Some ==> r is Ok && r->Ok_0@ == append_line(self.shell, path->0@),
    {
        let path = match path {
            Some(path) => path,
            None => return Err(PathmanError::UnableToConvertPathToString),
        };
        let line = match self.shell {
            Shell::Fish => String::from_str("set -gx PATH $PATH \"").concat(path).concat("\""),
            _ => String::from_str("export PATH=\"$PATH:").concat(path).concat("\""),
        };
        Ok(line)
    }
}

} // verus!
