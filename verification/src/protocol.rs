//! The rules of an invocation, as mathematics.
//!
//! An invocation moves in steps. Each step prints some lines and asks for
//! one thing to be done: a directory made or read, a file read, written or
//! removed, a line run. The result comes back as an event and decides the
//! next step. Here the steps are functions over sequences of characters;
//! `session` holds the code that computes them.

use vstd::prelude::*;
use vstd::utf8::{decode_utf8, valid_utf8};
use crate::command::{command_of, Command};
use crate::entry::{entry_file_text, in_range, name_index};
use crate::message::{
    add_example_text, added_text, delete_example_text, deleted_text, empty_text, help_text,
    list_line_text, not_found_text, removed_invalid_text, unknown_command_text, version_text,
};
use crate::number::index_of;
use crate::text::{joined, stem};

verus! {

/// A command that works in the data directory, which has to exist first.
#[derive(Clone, Copy, Debug, PartialEq, Eq, Structural)]
pub enum Task {
    Add,
    Delete,
    Run,
}

/// A request, as mathematics: see `session::Request`.
pub enum RequestView {
    Done,
    PrepareDirectory,
    ReadDirectory,
    ReadFile { name: Seq<char> },
    WriteFile { name: Seq<char>, content: Seq<char> },
    RemoveFile { name: Seq<char> },
    Execute { line: Seq<char> },
}

/// An event, as mathematics: see `session::Event`.
pub enum EventView {
    Prepared,
    Listing(Seq<Seq<char>>),
    Content(Seq<char>),
    Written,
    Removed,
    Output(Seq<u8>),
}

/// A stage, as mathematics: see `session::Stage`.
pub enum StageView {
    Finished,
    Preparing { task: Task, arguments: Seq<Seq<char>> },
    Scanning,
    Showing { names: Seq<Seq<char>>, shown: nat },
    Adding { entry: Seq<char> },
    Storing { entry: Seq<char> },
    Healing { name: Seq<char> },
    Deleting { index: nat },
    Removing { index: nat },
    Finding { index: nat },
    Loading,
    Running,
}

/// A step, as mathematics: see `session::Step`.
pub struct StepView {
    pub stage: StageView,
    pub output: Seq<Seq<char>>,
    pub request: RequestView,
}

/// The text that `String::from_utf8_lossy` makes of these bytes.
pub uninterp spec fn utf8_lossy(bytes: Seq<u8>) -> Seq<char>;

/// The text of what a line wrote: the characters that the bytes encode where
/// they are valid UTF-8, else what `String::from_utf8_lossy` makes of them.
pub open spec fn output_text(bytes: Seq<u8>) -> Seq<char> {
    if valid_utf8(bytes) {
        decode_utf8(bytes)
    } else {
        utf8_lossy(bytes)
    }
}

/// The step that ends an invocation with these lines.
pub open spec fn finish_step(output: Seq<Seq<char>>) -> StepView {
    StepView { stage: StageView::Finished, output, request: RequestView::Done }
}

/// The step that prints nothing and waits at `stage` for `request`.
pub open spec fn wait_step(stage: StageView, request: RequestView) -> StepView {
    StepView { stage, output: Seq::empty(), request }
}

/// `help`: the usage, whatever follows the verb.
pub open spec fn help_step() -> StepView {
    finish_step(help_text())
}

/// `version`: the version line; with anything after the verb, the line for an
/// unknown command.
pub open spec fn version_step(args: Seq<Seq<char>>) -> StepView {
    if args.len() > 0 {
        finish_step(seq![unknown_command_text("version"@, joined(args))])
    } else {
        finish_step(seq![version_text()])
    }
}

/// `list`: asks for the names; with any argument, the line for an unknown
/// command.
pub open spec fn list_step(args: Seq<Seq<char>>) -> StepView {
    if args.len() > 0 {
        finish_step(seq![unknown_command_text("list"@, joined(args))])
    } else {
        wait_step(StageView::Scanning, RequestView::ReadDirectory)
    }
}

/// `add`: the words, joined by single spaces, are the new entry, and the
/// names are asked for; without a word, the example line.
pub open spec fn add_step(args: Seq<Seq<char>>) -> StepView {
    if args.len() == 0 {
        finish_step(seq![add_example_text()])
    } else {
        wait_step(StageView::Adding { entry: joined(args) }, RequestView::ReadDirectory)
    }
}

/// `delete`: with one argument that reads as an index, asks for the names;
/// with one that does not, the line for an unknown command; with none or
/// several, the example line.
pub open spec fn delete_step(args: Seq<Seq<char>>) -> StepView {
    if args.len() != 1 {
        finish_step(seq![delete_example_text()])
    } else {
        match index_of(args[0]) {
            Some(index) => wait_step(
                StageView::Deleting { index: index as nat },
                RequestView::ReadDirectory,
            ),
            None => finish_step(seq![unknown_command_text("delete"@, args[0])]),
        }
    }
}

/// `run`: with one argument that reads as an index, asks for the names; else
/// the line for an unknown command.
pub open spec fn run_step(args: Seq<Seq<char>>) -> StepView {
    if args.len() != 1 {
        finish_step(seq![unknown_command_text("run"@, joined(args))])
    } else {
        match index_of(args[0]) {
            Some(index) => wait_step(
                StageView::Finding { index: index as nat },
                RequestView::ReadDirectory,
            ),
            None => finish_step(seq![unknown_command_text("run"@, args[0])]),
        }
    }
}

/// The step that has the data directory made before `task` goes on.
pub open spec fn prepare_step(task: Task, arguments: Seq<Seq<char>>) -> StepView {
    wait_step(StageView::Preparing { task, arguments }, RequestView::PrepareDirectory)
}

/// The first step of an invocation with these process arguments, the
/// program's own name first. Only a task has the data directory made; an
/// unknown verb prints its line and asks for nothing.
pub open spec fn start_step(args: Seq<Seq<char>>) -> StepView {
    match command_of(args) {
        Command::List => list_step(Seq::empty()),
        Command::Help => help_step(),
        Command::Version => version_step(args.skip(2)),
        Command::Add => prepare_step(Task::Add, args.skip(2)),
        Command::Delete => prepare_step(Task::Delete, args.skip(2)),
        Command::Run => prepare_step(Task::Run, seq![args[1]]),
        Command::Unknown => finish_step(seq![unknown_command_text(Seq::empty(), args[1])]),
    }
}

/// A task, once the data directory exists.
pub open spec fn task_step(task: Task, arguments: Seq<Seq<char>>) -> StepView {
    match task {
        Task::Add => add_step(arguments),
        Task::Delete => delete_step(arguments),
        Task::Run => run_step(arguments),
    }
}

/// `list` with the names: `Empty` where there are none, else the first file
/// is read.
pub open spec fn scan_step(names: Seq<Seq<char>>) -> StepView {
    if names.len() == 0 {
        finish_step(seq![empty_text()])
    } else {
        wait_step(StageView::Showing { names, shown: 0 }, RequestView::ReadFile { name: names[0] })
    }
}

/// `list` with the content of the file at position `shown`: its line is
/// printed under the display index `shown + 1`, and the next file is read,
/// if there is one. `None` where there is no file at that position.
pub open spec fn show_step(names: Seq<Seq<char>>, shown: nat, content: Seq<char>) -> Option<
    StepView,
> {
    let line = list_line_text(shown + 1, content);
    if shown >= names.len() {
        None
    } else if shown + 1 < names.len() {
        Some(
            StepView {
                stage: StageView::Showing { names, shown: shown + 1 },
                output: seq![line],
                request: RequestView::ReadFile { name: names[shown as int + 1] },
            },
        )
    } else {
        Some(finish_step(seq![line]))
    }
}

/// `add` with the names. With none, the entry goes to the file of index 1.
/// Where the last name carries an index, it goes to the file of the next
/// index. Where it carries none, that file is removed and nothing is stored.
pub open spec fn store_step(entry: Seq<char>, names: Seq<Seq<char>>) -> StepView {
    if names.len() == 0 {
        wait_step(
            StageView::Storing { entry },
            RequestView::WriteFile { name: entry_file_text(1), content: entry },
        )
    } else {
        match name_index(names.last()) {
            Some(last) => wait_step(
                StageView::Storing { entry },
                RequestView::WriteFile {
                    name: entry_file_text((last + 1) as nat),
                    content: entry,
                },
            ),
            None => wait_step(
                StageView::Healing { name: stem(names.last()) },
                RequestView::RemoveFile { name: names.last() },
            ),
        }
    }
}

/// `delete` with the names: the file at the display index is removed; an
/// index out of range is reported and nothing is removed.
pub open spec fn remove_step(index: nat, names: Seq<Seq<char>>) -> StepView {
    if in_range(index, names.len()) {
        wait_step(
            StageView::Removing { index },
            RequestView::RemoveFile { name: names[index as int - 1] },
        )
    } else {
        finish_step(seq![not_found_text(index)])
    }
}

/// `run` with the names: the file at the display index is read; an index out
/// of range is reported.
pub open spec fn find_step(index: nat, names: Seq<Seq<char>>) -> StepView {
    if in_range(index, names.len()) {
        wait_step(StageView::Loading, RequestView::ReadFile { name: names[index as int - 1] })
    } else {
        finish_step(seq![not_found_text(index)])
    }
}

/// `run` with the content of its entry: the content is the line to execute.
pub open spec fn load_step(content: Seq<char>) -> StepView {
    wait_step(StageView::Running, RequestView::Execute { line: content })
}

/// `run` with what the line wrote, as text: that text is printed.
pub open spec fn report_step(text: Seq<char>) -> StepView {
    finish_step(seq![text])
}

/// The step that follows `stage` on `event`; `None` where the event is not
/// the result of what the stage waits for, or `list` is to show a file that
/// is not there.
pub open spec fn next_step(stage: StageView, event: EventView) -> Option<StepView> {
    match (stage, event) {
        (StageView::Preparing { task, arguments }, EventView::Prepared) => Some(
            task_step(task, arguments),
        ),
        (StageView::Scanning, EventView::Listing(names)) => Some(scan_step(names)),
        (StageView::Showing { names, shown }, EventView::Content(content)) => show_step(
            names,
            shown,
            content,
        ),
        (StageView::Adding { entry }, EventView::Listing(names)) => Some(store_step(entry, names)),
        (StageView::Storing { entry }, EventView::Written) => Some(
            finish_step(seq![added_text(entry)]),
        ),
        (StageView::Healing { name }, EventView::Removed) => Some(
            finish_step(seq![removed_invalid_text(name)]),
        ),
        (StageView::Deleting { index }, EventView::Listing(names)) => Some(
            remove_step(index, names),
        ),
        (StageView::Removing { index }, EventView::Removed) => Some(
            finish_step(seq![deleted_text(index)]),
        ),
        (StageView::Finding { index }, EventView::Listing(names)) => Some(find_step(index, names)),
        (StageView::Loading, EventView::Content(content)) => Some(load_step(content)),
        (StageView::Running, EventView::Output(bytes)) => Some(report_step(output_text(bytes))),
        _ => None,
    }
}

/// Whether `event` is a result of `request`.
pub open spec fn answers(event: EventView, request: RequestView) -> bool {
    match request {
        RequestView::Done => false,
        RequestView::PrepareDirectory => event is Prepared,
        RequestView::ReadDirectory => event is Listing,
        RequestView::ReadFile { name } => event is Content,
        RequestView::WriteFile { name, content } => event is Written,
        RequestView::RemoveFile { name } => event is Removed,
        RequestView::Execute { line } => event is Output,
    }
}

/// Whether the request of a step is what its stage waits for. Every step
/// that the library gives is such a step.
pub open spec fn coherent(step: StepView) -> bool {
    match step.stage {
        StageView::Finished => step.request is Done,
        StageView::Preparing { task, arguments } => step.request is PrepareDirectory,
        StageView::Scanning => step.request is ReadDirectory,
        StageView::Showing { names, shown } => shown < names.len() && step.request
            == (RequestView::ReadFile { name: names[shown as int] }),
        StageView::Adding { entry } => step.request is ReadDirectory,
        StageView::Storing { entry } => step.request is WriteFile && step.request->WriteFile_content
            == entry,
        StageView::Healing { name } => step.request is RemoveFile,
        StageView::Deleting { index } => step.request is ReadDirectory,
        StageView::Removing { index } => step.request is RemoveFile,
        StageView::Finding { index } => step.request is ReadDirectory,
        StageView::Loading => step.request is ReadFile,
        StageView::Running => step.request is Execute,
    }
}

/// The first step of every invocation is coherent.
pub proof fn lemma_start_coherent(args: Seq<Seq<char>>)
    ensures
        coherent(start_step(args)),
{
}

/// An invocation never gets stuck: from a coherent step, a result of its
/// request leads to a next step, which is coherent again.
pub proof fn lemma_next_coherent(step: StepView, event: EventView)
    requires
        coherent(step),
        answers(event, step.request),
    ensures
        next_step(step.stage, event) is Some,
        coherent(next_step(step.stage, event)->0),
{
}

} // verus!
