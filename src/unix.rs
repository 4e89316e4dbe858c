//! Updating `PATH` through a shell's start-up file.
//!
//! The library decides and the caller does the file work: an updater holds the
//! request it is waiting on, the caller carries it out and hands back a reply,
//! and `step` turns that reply into the next request, until `Finished`.

use vstd::prelude::*;
use vstd::string::StringExecFns;

use crate::error::{PathmanError, UpdateType};
use crate::shell::{append_line, config_candidates, first_found_from, prepend_line, CurrentShell};
use crate::text::{contains, is_infix};

verus! {

/// What an updater waits on.
#[derive(Debug, PartialEq, Eq)]
pub enum Request {
    /// Report, for each of these files in order, whether it exists.
    FindFiles(Vec<String>),
    /// Read the whole text of this file.
    ReadFile(String),
    /// Replace the whole text of the file at the first path by the second string.
    WriteFile(String, String),
    /// The update is over, with this outcome.
    Finished(Result<UpdateType, PathmanError>),
}

/// What came of carrying out a request.
#[derive(Debug, PartialEq, Eq)]
pub enum Reply {
    /// For each file asked about, in order, whether it exists.
    Found(Vec<bool>),
    /// The file's text, or `None` where it could not be read.
    Read(Option<String>),
    /// Whether the write succeeded.
    Written(bool),
}

/// One update of a shell's start-up file: the line to add, the comment to put
/// above it, and the request that the update waits on.
pub struct UnixPathUpdater {
    pub shell: CurrentShell,
    pub export_line: String,
    pub comment: Option<String>,
    pub request: Request,
}

/// The block that goes at the end of a start-up file: a newline, the comment
/// line where there is a comment, and `line`.
pub open spec fn added_block(line: Seq<char>, comment: Option<Seq<char>>) -> Seq<char> {
    match comment {
        Some(c) => "\n# "@ + c + "\n"@ + line,
        None => "\n"@ + line,
    }
}

/// The text of a start-up file once `line` is added after `content`.
pub open spec fn with_line(content: Seq<char>, line: Seq<char>, comment: Option<Seq<char>>) -> Seq<
    char,
> {
    content + added_block(line, comment)
}

/// The new text of a start-up file, or `None` where it holds `line` already.
fn updated_config(content: &str, line: &str, comment: Option<&str>) -> (r: Option<String>)
    ensures
        is_infix(line@, content@) ==> r is None,
        !is_infix(line@, content@) ==> r is Some && r->0@ == with_line(
            content@,
            line@,
            comment.deep_view(),
        ),
{
    if contains(content, line) {
        return None;
    }
    let mut text = String::from_str(content);
    match comment {
        Some(c) => {
            text.append("\n# ");
            text.append(c);
        },
        None => {},
    }
    text.append("\n");
    text.append(line);
    assert(text@ =~= with_line(content@, line@, comment.deep_view()));
    Some(text)
}

/// Once an update has written its line into a start-up file, the same update
/// run again on the written text finds the line there, ends in `AlreadyInPath`
/// and asks for no write, so the file stays as the first run left it.
pub proof fn lemma_update_is_idempotent(
    u: UnixPathUpdater,
    text: String,
    written: Request,
    again: String,
    next: Request,
)
    requires
        u.request is ReadFile,
        u.answers(Reply::Read(Some(text)), written),
        written is WriteFile,
        again@ == written->WriteFile_1@,
        u.answers(Reply::Read(Some(again)), next),
    ensures
        is_infix(u.export_line@, again@),
        next == Request::Finished(Ok::<UpdateType, PathmanError>(UpdateType::AlreadyInPath)),
{
    let line = u.export_line@;
    let at = again@.len() - line.len();
    assert(again@ == with_line(text@, line, u.comment.deep_view()));
    assert(again@.subrange(at, at + line.len()) =~= line);
}

/// What an update writes is the old text, unchanged, followed by
/// `\n# {comment}\n{line}` where there is a comment and by `\n{line}` where
/// there is none.
pub proof fn lemma_written_block(u: UnixPathUpdater, text: String, written: Request)
    requires
        u.request is ReadFile,
        u.answers(Reply::Read(Some(text)), written),
        written is WriteFile,
    ensures
        written->WriteFile_1@.subrange(0, text@.len() as int) == text@,
        u.comment is Some ==> written->WriteFile_1@.subrange(
            text@.len() as int,
            written->WriteFile_1@.len() as int,
        ) == "\n# "@ + u.comment->0@ + "\n"@ + u.export_line@,
        u.comment is None ==> written->WriteFile_1@.subrange(
            text@.len() as int,
            written->WriteFile_1@.len() as int,
        ) == "\n"@ + u.export_line@,
{
    let w = written->WriteFile_1@;
    assert(w.subrange(0, text@.len() as int) =~= text@);
    assert(w.subrange(text@.len() as int, w.len() as int) =~= added_block(
        u.export_line@,
        u.comment.deep_view(),
    ));
}

impl UnixPathUpdater {
    /// Whether `next` is the request that follows `reply` to this updater's
    /// request. A reply that does not answer the request leaves it as it is.
    pub open spec fn answers(self, reply: Reply, next: Request) -> bool {
        match self.request {
            Request::FindFiles(_) => match reply {
                Reply::Found(found) => match first_found_from(
                    config_candidates(self.shell.shell, self.shell.home@),
                    found@,
                    0,
                ) {
                    Some(path) => next is ReadFile && next->ReadFile_0@ == path,
                    None => next == Request::Finished(
                        Err(PathmanError::UnableToFindShellConfigFile),
                    ),
                },
                _ => next == self.request,
            },
            Request::ReadFile(path) => match reply {
                Reply::Read(None) => next == Request::Finished(
                    Err(PathmanError::UnableToReadShellConfigFile(path)),
                ),
                Reply::Read(Some(text)) => if is_infix(self.export_line@, text@) {
                    next == Request::Finished(Ok(UpdateType::AlreadyInPath))
                } else {
                    next is WriteFile && next->WriteFile_0 == path && next->WriteFile_1@ == with_line(
                        text@,
                        self.export_line@,
                        self.comment.deep_view(),
                    )
                },
                _ => next == self.request,
            },
            Request::WriteFile(path, _) => match reply {
                Reply::Written(true) => next == Request::Finished(Ok(UpdateType::Success)),
                Reply::Written(false) => next == Request::Finished(
                    Err(PathmanError::UnableToWriteShellConfigFile(path)),
                ),
                _ => next == self.request,
            },
            Request::Finished(_) => next == self.request,
        }
    }

    /// Whether `u` is an update of `shell`'s start-up file that adds the line
    /// `line` (or ends in its error) under `comment`, and has not yet begun.
    pub open spec fn starts(
        u: UnixPathUpdater,
        shell: CurrentShell,
        line: Result<Seq<char>, PathmanError>,
        comment: Option<Seq<char>>,
    ) -> bool {
        &&& u.shell == shell
        &&& u.comment.deep_view() == comment
        &&& match line {
            Ok(l) => u.export_line@ == l && u.request is FindFiles && u.request->FindFiles_0.deep_view()
                == config_candidates(shell.shell, shell.home@),
            Err(_) => u.request == Request::Finished(
                Err::<UpdateType, _>(PathmanError::UnableToCreateExportCommand),
            ),
        }
    }

    fn start(shell: CurrentShell, line: Result<String, PathmanError>, comment: Option<&str>) -> (r:
        UnixPathUpdater)
        ensures
            line is Ok ==> UnixPathUpdater::starts(r, shell, Ok(line->Ok_0@), comment.deep_view()),
            line is Err ==> UnixPathUpdater::starts(r, shell, Err(line->Err_0), comment.deep_view()),
    {
        let comment = match comment {
            Some(c) => Some(String::from_str(c)),
            None => None,
        };
        match line {
            Ok(export_line) => {
                let files = shell.config_file_candidates();
                UnixPathUpdater { shell, export_line, comment, request: Request::FindFiles(files) }
            },
            Err(_) => UnixPathUpdater {
                shell,
                export_line: String::new(),
                comment,
                request: Request::Finished(Err(PathmanError::UnableToCreateExportCommand)),
            },
        }
    }

    /// An update that puts `path` at the front of `PATH` in `shell`'s start-up
    /// file, with `comment` above the new line; `path` is `None` where the path
    /// is not valid Unicode.
    pub fn prepend(shell: CurrentShell, path: Option<&str>, comment: Option<&str>) -> (r:
        UnixPathUpdater)
        ensures
            path is Some ==> UnixPathUpdater::starts(
                r,
                shell,
                Ok(prepend_line(shell.shell, path->0@)),
                comment.deep_view(),
            ),
            path is None ==> UnixPathUpdater::starts(
                r,
                shell,
                Err(PathmanError::UnableToConvertPathToString),
                comment.deep_view(),
            ),
    {
        let line = shell.get_prepend_command(path);
        UnixPathUpdater::start(shell, line, comment)
    }

    /// An update that puts `path` at the end of `PATH` in `shell`'s start-up
    /// file, with `comment` above the new line; `path` is `None` where the path
    /// is not valid Unicode.
    pub fn append(shell: CurrentShell, path: Option<&str>, comment: Option<&str>) -> (r:
        UnixPathUpdater)
        ensures
            path is Some ==> UnixPathUpdater::starts(
                r,
                shell,
                Ok(append_line(shell.shell, path->0@)),
                comment.deep_view(),
            ),
            path is None ==> UnixPathUpdater::starts(
                r,
                shell,
                Err(PathmanError::UnableToConvertPathToString),
                comment.deep_view(),
            ),
    {
        let line = shell.get_append_command(path);
        UnixPathUpdater::start(shell, line, comment)
    }

    /// Takes the reply to the pending request and moves on to the next request.
    pub fn step(&mut self, reply: Reply)
        ensures
            old(self).answers(reply, final(self).request),
            final(self).shell == old(self).shell,
            final(self).export_line == old(self).export_line,
            final(self).comment == old(self).comment,
    {
        let next = match &self.request {
            Request::FindFiles(_) => match reply {
                Reply::Found(found) => match self.shell.config_file_path(&found) {
                    Ok(path) => Request::ReadFile(path),
                    Err(e) => Request::Finished(Err(e)),
                },
                _ => return ,
            },
            Request::ReadFile(path) => match reply {
                Reply::Read(None) => Request::Finished(
                    Err(PathmanError::UnableToReadShellConfigFile(path.clone())),
                ),
                Reply::Read(Some(text)) => {
                    let comment = match &self.comment {
                        Some(c) => Some(c.as_str()),
                        None => None,
                    };
                    match updated_config(text.as_str(), self.export_line.as_str(), comment) {
                        None => Request::Finished(Ok(UpdateType::AlreadyInPath)),
                        Some(new_text) => Request::WriteFile(path.clone(), new_text),
                    }
                },
                _ => return ,
            },
            Request::WriteFile(path, _) => match reply {
                Reply::Written(true) => Request::Finished(Ok(UpdateType::Success)),
                Reply::Written(false) => Request::Finished(
                    Err(PathmanError::UnableToWriteShellConfigFile(path.clone())),
                ),
                _ => return ,
            },
            Request::Finished(_) => return ,
        };
        self.request = next;
    }
}

} // verus!
