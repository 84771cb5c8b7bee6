//! What to do with a submitted line, and what to report once the
//! environment has answered.
use vstd::prelude::*;

use crate::event::{output, path_update, Event, EventView};
use crate::shell::{build_cd_script, build_run_script, cd_script, run_script};
use crate::store::DirectoryStore;
use crate::text::{
    decode_lossy, is_ws, lemma_no_words_iff_blank, split_words, trim, trim_str, utf8_lossy, views, words,
};

verus! {

/// The step that a submitted line calls for.
#[derive(Clone, Debug, PartialEq, Eq)]
pub enum Action {
    /// Nothing was typed: no event, no process.
    Nothing,
    /// Report this event and start no process.
    Emit(Event),
    /// Run this script to completion; its exit status and its output decide
    /// the new directory (see `finish_cd`).
    ChangeDir(String),
    /// Run this script and relay each line it prints.
    Run(String),
}

pub enum ActionView {
    Nothing,
    Emit(EventView),
    ChangeDir(Seq<char>),
    Run(Seq<char>),
}

impl View for Action {
    type V = ActionView;

    open spec fn view(&self) -> ActionView {
        match self {
            Action::Nothing => ActionView::Nothing,
            Action::Emit(e) => ActionView::Emit(e@),
            Action::ChangeDir(s) => ActionView::ChangeDir(s@),
            Action::Run(s) => ActionView::Run(s@),
        }
    }
}

pub open spec fn help_text() -> Seq<char> {
    "BUILT-IN COMMANDS:\n- help: Shows this message\n- cd [dir]: Changes directory\n- clear: Clears the terminal screen\n\nAll other commands are passed to WSL."@
}

/// The step for `line` when the working directory is `dir`: the first word
/// names the program and the rest are its arguments.
pub open spec fn planned(line: Seq<char>, dir: Seq<char>) -> ActionView {
    let ws = words(line);
    if ws.len() == 0 {
        ActionView::Nothing
    } else if ws[0] == "cd"@ {
        ActionView::ChangeDir(cd_script(dir, ws.drop_first()))
    } else if ws[0] == "help"@ {
        ActionView::Emit(output(help_text()))
    } else {
        ActionView::Run(run_script(dir, ws[0], ws.drop_first()))
    }
}

/// Decides what a submitted line calls for, starting from the directory
/// that `store` holds. An empty or blank line asks for nothing, and `help`
/// is answered without a process.
pub fn plan(line: &str, store: &DirectoryStore) -> (r: Action)
    ensures
        r@ == planned(line@, store@),
{
    let mut ws = split_words(line);
    if ws.len() == 0 {
        return Action::Nothing;
    }
    let ghost all = views(ws@);
    let program = ws.remove(0);
    assert(views(ws@) =~= all.drop_first());
    if program == String::from_str("cd") {
        let dir = store.get();
        Action::ChangeDir(build_cd_script(dir.as_str(), &ws))
    } else if program == String::from_str("help") {
        Action::Emit(
            Event::output(
                String::from_str(
                    "BUILT-IN COMMANDS:\n- help: Shows this message\n- cd [dir]: Changes directory\n- clear: Clears the terminal screen\n\nAll other commands are passed to WSL.",
                ),
            ),
        )
    } else {
        let dir = store.get();
        Action::Run(build_run_script(dir.as_str(), program.as_str(), &ws))
    }
}

/// Takes the answer to a `cd` script. On success the trimmed output is the
/// new directory: it is stored and announced. On failure the error text is
/// reported and the directory stays as it was.
pub fn finish_cd_text(store: &mut DirectoryStore, succeeded: bool, stdout: &str, stderr: &str) -> (r:
    Event)
    ensures
        succeeded ==> final(store)@ == trim(stdout@) && r@ == path_update(trim(stdout@)),
        !succeeded ==> final(store)@ == old(store)@ && r@ == output(stderr@),
{
    if succeeded {
        let path = trim_str(stdout);
        store.set(path.clone());
        Event::path_update(path)
    } else {
        Event::output(stderr.to_owned())
    }
}

/// As `finish_cd_text`, on the raw bytes that the script printed.
pub fn finish_cd(store: &mut DirectoryStore, succeeded: bool, stdout: &[u8], stderr: &[u8]) -> (r:
    Event)
    ensures
        succeeded ==> final(store)@ == trim(utf8_lossy(stdout@)) && r@ == path_update(
            trim(utf8_lossy(stdout@)),
        ),
        !succeeded ==> final(store)@ == old(store)@ && r@ == output(utf8_lossy(stderr@)),
{
    let out = decode_lossy(stdout);
    let err = decode_lossy(stderr);
    finish_cd_text(store, succeeded, out.as_str(), err.as_str())
}

/// The kind of script that could not be started.
#[derive(Clone, Copy, Debug, PartialEq, Eq, Structural)]
pub enum ScriptKind {
    ChangeDir,
    Run,
}

pub open spec fn launch_failure_text(kind: ScriptKind, diagnostic: Seq<char>) -> Seq<char> {
    match kind {
        ScriptKind::ChangeDir => "Failed to execute command: "@ + diagnostic,
        ScriptKind::Run => "Failed to start command: "@ + diagnostic,
    }
}

/// The report when the environment could not be started for a script;
/// `diagnostic` is the underlying error's text.
pub fn launch_failed(kind: ScriptKind, diagnostic: &str) -> (r: Event)
    ensures
        r@ == output(launch_failure_text(kind, diagnostic@)),
{
    let mut text = match kind {
        ScriptKind::ChangeDir => String::from_str("Failed to execute command: "),
        ScriptKind::Run => String::from_str("Failed to start command: "),
    };
    text.append(diagnostic);
    Event::output(text)
}

/// The event for one line read from a running script's output; a line that
/// could not be read (`None`) is skipped.
pub fn relay_line(read: Option<String>) -> (r: Option<Event>)
    ensures
        read is None ==> r is None,
        read is Some ==> r is Some && r->0@ == output(read->0@),
{
    match read {
        Some(line) => Some(Event::output(line)),
        None => None,
    }
}

/// A line that is empty or holds only whitespace asks for nothing: no event
/// and no process. Any other line asks for something.
pub proof fn lemma_blank_line_does_nothing(line: Seq<char>, dir: Seq<char>)
    ensures
        (planned(line, dir) is Nothing) <==> forall|i: int|
            0 <= i < line.len() ==> #[trigger] is_ws(line[i]),
{
    lemma_no_words_iff_blank(line);
}

} // verus!
