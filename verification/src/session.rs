//! One invocation as a conversation with the file system.
//!
//! The library decides and the caller acts. A `Step` holds the lines to print
//! now and one `Request`; the caller carries the request out and hands its
//! result back as an `Event` to `Stage::next`, until the request is `Done`.
//! Nothing here touches a file: every transition is a function of the stage
//! and the event alone, and `protocol` says which.

use vstd::prelude::*;
use vstd::utf8::{decode_utf8, valid_utf8};
use crate::command::{dispatch, Command};
use crate::entry::{entry_file, index_of_name, is_in_range};
use crate::message::{
    add_example, added, delete_example, deleted, empty, help_lines, list_line, not_found,
    removed_invalid, unknown_command, version_line,
};
use crate::number::parse_index;
use crate::protocol::{
    add_step, delete_step, find_step, finish_step, help_step, list_step, load_step, next_step,
    remove_step, report_step, run_step, scan_step, show_step, start_step, store_step, task_step,
    utf8_lossy, version_step, wait_step, EventView, RequestView, StageView, StepView, Task,
};
use crate::text::{join_words, stem_of};

verus! {

/// What the caller is asked to do next.
#[derive(Debug, PartialEq, Eq)]
pub enum Request {
    /// Nothing: the invocation is over.
    Done,
    /// Create the data directory, and its parents, unless it exists.
    PrepareDirectory,
    /// Read the names of the files in the data directory, in directory order.
    ReadDirectory,
    /// Read the file of that name in the data directory.
    ReadFile { name: String },
    /// Create or replace the file of that name with that content.
    WriteFile { name: String, content: String },
    /// Remove the file of that name from the data directory.
    RemoveFile { name: String },
    /// Run the line in the host's shell and collect what it writes to its
    /// standard output.
    Execute { line: String },
}

/// The result of carrying a request out.
#[derive(Debug, PartialEq, Eq)]
pub enum Event {
    /// The data directory exists.
    Prepared,
    /// The names in the data directory, in directory order.
    Listing(Vec<String>),
    /// The content of the file that was read.
    Content(String),
    /// The file was written.
    Written,
    /// The file was removed.
    Removed,
    /// The standard output of the line that was run.
    Output(Vec<u8>),
}

/// Where an invocation stands: what it waits for and what it has to remember.
#[derive(Debug, PartialEq, Eq)]
pub enum Stage {
    /// Over.
    Finished,
    /// A task waits for the data directory.
    Preparing { task: Task, arguments: Vec<String> },
    /// `list` waits for the names.
    Scanning,
    /// `list` has shown the first `shown` of `names` and waits for the content
    /// of the next.
    Showing { names: Vec<String>, shown: usize },
    /// `add` waits for the names.
    Adding { entry: String },
    /// `add` waits for its file to be written.
    Storing { entry: String },
    /// `add` waits for the removal of a file that names no index.
    Healing { name: String },
    /// `delete` waits for the names.
    Deleting { index: usize },
    /// `delete` waits for the removal.
    Removing { index: usize },
    /// `run` waits for the names.
    Finding { index: usize },
    /// `run` waits for the content of its entry.
    Loading,
    /// `run` waits for the output.
    Running,
}

/// One move of the library: where it stands now, the lines to print, each on
/// a line of its own, and what to do next.
#[derive(Debug, PartialEq, Eq)]
pub struct Step {
    pub stage: Stage,
    pub output: Vec<String>,
    pub request: Request,
}

impl View for Request {
    type V = RequestView;

    open spec fn view(&self) -> RequestView {
        match *self {
            Request::Done => RequestView::Done,
            Request::PrepareDirectory => RequestView::PrepareDirectory,
            Request::ReadDirectory => RequestView::ReadDirectory,
            Request::ReadFile { name } => RequestView::ReadFile { name: name@ },
            Request::WriteFile { name, content } => RequestView::WriteFile {
                name: name@,
                content: content@,
            },
            Request::RemoveFile { name } => RequestView::RemoveFile { name: name@ },
            Request::Execute { line } => RequestView::Execute { line: line@ },
        }
    }
}

impl View for Event {
    type V = EventView;

    open spec fn view(&self) -> EventView {
        match *self {
            Event::Prepared => EventView::Prepared,
            Event::Listing(names) => EventView::Listing(names.deep_view()),
            Event::Content(content) => EventView::Content(content@),
            Event::Written => EventView::Written,
            Event::Removed => EventView::Removed,
            Event::Output(bytes) => EventView::Output(bytes@),
        }
    }
}

impl View for Stage {
    type V = StageView;

    open spec fn view(&self) -> StageView {
        match *self {
            Stage::Finished => StageView::Finished,
            Stage::Preparing { task, arguments } => StageView::Preparing {
                task,
                arguments: arguments.deep_view(),
            },
            Stage::Scanning => StageView::Scanning,
            Stage::Showing { names, shown } => StageView::Showing {
                names: names.deep_view(),
                shown: shown as nat,
            },
            Stage::Adding { entry } => StageView::Adding { entry: entry@ },
            Stage::Storing { entry } => StageView::Storing { entry: entry@ },
            Stage::Healing { name } => StageView::Healing { name: name@ },
            Stage::Deleting { index } => StageView::Deleting { index: index as nat },
            Stage::Removing { index } => StageView::Removing { index: index as nat },
            Stage::Finding { index } => StageView::Finding { index: index as nat },
            Stage::Loading => StageView::Loading,
            Stage::Running => StageView::Running,
        }
    }
}

impl View for Step {
    type V = StepView;

    open spec fn view(&self) -> StepView {
        StepView { stage: self.stage@, output: self.output.deep_view(), request: self.request@ }
    }
}

/// What an optional step stands for.
pub open spec fn view_of(step: Option<Step>) -> Option<StepView> {
    match step {
        Some(step) => Some(step@),
        None => None,
    }
}

/// `String::from_utf8_lossy` of std, with the borrowed or owned text that it
/// gives made a `String`. The text is a function of the bytes alone. Valid
/// UTF-8 comes back as the characters it encodes; of other bytes the text is
/// known here only by its name, `utf8_lossy`.
#[verifier::external_body]
fn lossy_text(bytes: &Vec<u8>) -> (r: String)
    ensures
        r@ == utf8_lossy(bytes@),
        valid_utf8(bytes@) ==> r@ == decode_utf8(bytes@),
{
    String::from_utf8_lossy(bytes).into_owned()
}

/// Copies of the arguments from position `from` on.
fn arguments_from(args: &Vec<String>, from: usize) -> (r: Vec<String>)
    requires
        from <= args.len(),
    ensures
        r.deep_view() == args.deep_view().skip(from as int),
{
    let mut rest: Vec<String> = Vec::new();
    let mut i: usize = from;
    while i < args.len()
        invariant
            from <= i <= args.len(),
            rest.len() == i - from,
            forall|j: int| 0 <= j < rest.len() ==> rest[j]@ == args[from + j]@,
        decreases args.len() - i,
    {
        rest.push(args[i].clone());
        i = i + 1;
    }
    assert(rest.deep_view() =~= args.deep_view().skip(from as int));
    rest
}

fn finish(line: String) -> (r: Step)
    ensures
        r@ == finish_step(seq![line@]),
{
    let mut output: Vec<String> = Vec::new();
    output.push(line);
    assert(output.deep_view() =~= seq![line@]);
    Step { stage: Stage::Finished, output, request: Request::Done }
}

fn wait(stage: Stage, request: Request) -> (r: Step)
    ensures
        r@ == wait_step(stage@, request@),
{
    let output: Vec<String> = Vec::new();
    assert(output.deep_view() =~= Seq::<Seq<char>>::empty());
    Step { stage, output, request }
}

/// The usage.
pub fn help() -> (r: Step)
    ensures
        r@ == help_step(),
{
    Step { stage: Stage::Finished, output: help_lines(), request: Request::Done }
}

/// The version, given what followed the verb.
pub fn version(args: &Vec<String>) -> (r: Step)
    ensures
        r@ == version_step(args.deep_view()),
{
    if args.len() > 0 {
        finish(unknown_command("version", join_words(args).as_str()))
    } else {
        finish(version_line())
    }
}

/// The first step of `list`, given its arguments.
pub fn list(args: &Vec<String>) -> (r: Step)
    ensures
        r@ == list_step(args.deep_view()),
{
    if args.len() > 0 {
        finish(unknown_command("list", join_words(args).as_str()))
    } else {
        wait(Stage::Scanning, Request::ReadDirectory)
    }
}

/// The first step of `add`, given the words of the new entry.
pub fn add(args: &Vec<String>) -> (r: Step)
    ensures
        r@ == add_step(args.deep_view()),
{
    if args.len() == 0 {
        finish(add_example())
    } else {
        wait(Stage::Adding { entry: join_words(args) }, Request::ReadDirectory)
    }
}

/// The first step of `delete`, given what followed the verb.
pub fn delete(args: &Vec<String>) -> (r: Step)
    ensures
        r@ == delete_step(args.deep_view()),
{
    if args.len() != 1 {
        finish(delete_example())
    } else {
        match parse_index(args[0].as_str()) {
            Some(index) => wait(Stage::Deleting { index }, Request::ReadDirectory),
            None => finish(unknown_command("delete", args[0].as_str())),
        }
    }
}

/// The first step of `run`, given its arguments.
pub fn run(args: &Vec<String>) -> (r: Step)
    ensures
        r@ == run_step(args.deep_view()),
{
    if args.len() != 1 {
        finish(unknown_command("run", join_words(args).as_str()))
    } else {
        match parse_index(args[0].as_str()) {
            Some(index) => wait(Stage::Finding { index }, Request::ReadDirectory),
            None => finish(unknown_command("run", args[0].as_str())),
        }
    }
}

/// The first step of an invocation, given the process arguments, the
/// program's own name first.
pub fn start(args: &Vec<String>) -> (r: Step)
    ensures
        r@ == start_step(args.deep_view()),
{
    match dispatch(args) {
        Command::List => {
            let none: Vec<String> = Vec::new();
            assert(none.deep_view() =~= Seq::<Seq<char>>::empty());
            list(&none)
        },
        Command::Help => help(),
        Command::Version => version(&arguments_from(args, 2)),
        Command::Add => wait(
            Stage::Preparing { task: Task::Add, arguments: arguments_from(args, 2) },
            Request::PrepareDirectory,
        ),
        Command::Delete => wait(
            Stage::Preparing { task: Task::Delete, arguments: arguments_from(args, 2) },
            Request::PrepareDirectory,
        ),
        Command::Run => {
            let mut arguments: Vec<String> = Vec::new();
            arguments.push(args[1].clone());
            assert(arguments.deep_view() =~= seq![args.deep_view()[1]]);
            wait(Stage::Preparing { task: Task::Run, arguments }, Request::PrepareDirectory)
        },
        Command::Unknown => {
            proof {
                reveal_strlit("");
                assert(""@ =~= Seq::<char>::empty());
            }
            finish(unknown_command("", args[1].as_str()))
        },
    }
}

/// What a task does once the data directory exists.
pub fn begin(task: Task, arguments: &Vec<String>) -> (r: Step)
    ensures
        r@ == task_step(task, arguments.deep_view()),
{
    match task {
        Task::Add => self::add(arguments),
        Task::Delete => delete(arguments),
        Task::Run => run(arguments),
    }
}

/// What `list` does with the names of the directory.
pub fn scan(names: Vec<String>) -> (r: Step)
    ensures
        r@ == scan_step(names.deep_view()),
{
    if names.len() == 0 {
        finish(empty())
    } else {
        let name = names[0].clone();
        wait(Stage::Showing { names, shown: 0 }, Request::ReadFile { name })
    }
}

/// What `list` does with the content of the file at position `shown`; `None`
/// where there is no file at that position.
pub fn show(names: Vec<String>, shown: usize, content: &str) -> (r: Option<Step>)
    ensures
        view_of(r) == show_step(names.deep_view(), shown as nat, content@),
{
    if shown >= names.len() {
        return None;
    }
    let line = list_line(shown + 1, content);
    if shown + 1 < names.len() {
        let name = names[shown + 1].clone();
        let mut output: Vec<String> = Vec::new();
        output.push(line);
        assert(output.deep_view() =~= seq![line@]);
        Some(
            Step {
                stage: Stage::Showing { names, shown: shown + 1 },
                output,
                request: Request::ReadFile { name },
            },
        )
    } else {
        Some(finish(line))
    }
}

/// What `add` does with the names of the directory.
pub fn store(entry: String, names: &Vec<String>) -> (r: Step)
    ensures
        r@ == store_step(entry@, names.deep_view()),
{
    if names.len() == 0 {
        let name = entry_file(1);
        let content = entry.clone();
        wait(Stage::Storing { entry }, Request::WriteFile { name, content })
    } else {
        let last = &names[names.len() - 1];
        assert(last@ == names.deep_view().last());
        match index_of_name(last.as_str()) {
            Some(index) => {
                let name = entry_file(index as u128 + 1);
                let content = entry.clone();
                wait(Stage::Storing { entry }, Request::WriteFile { name, content })
            },
            None => wait(
                Stage::Healing { name: stem_of(last.as_str()) },
                Request::RemoveFile { name: last.clone() },
            ),
        }
    }
}

/// What `delete` does with the names of the directory.
pub fn remove(index: usize, names: &Vec<String>) -> (r: Step)
    ensures
        r@ == remove_step(index as nat, names.deep_view()),
{
    if is_in_range(index, names.len()) {
        wait(Stage::Removing { index }, Request::RemoveFile { name: names[index - 1].clone() })
    } else {
        finish(not_found(index))
    }
}

/// What `run` does with the names of the directory.
pub fn find(index: usize, names: &Vec<String>) -> (r: Step)
    ensures
        r@ == find_step(index as nat, names.deep_view()),
{
    if is_in_range(index, names.len()) {
        wait(Stage::Loading, Request::ReadFile { name: names[index - 1].clone() })
    } else {
        finish(not_found(index))
    }
}

/// What `run` does with the content of its entry.
pub fn load(content: String) -> (r: Step)
    ensures
        r@ == load_step(content@),
{
    wait(Stage::Running, Request::Execute { line: content })
}

/// What `run` does with the text of what the line wrote.
pub fn report(text: String) -> (r: Step)
    ensures
        r@ == report_step(text@),
{
    finish(text)
}

impl Stage {
    /// Goes on with the result of the last request. `None` where the event
    /// is not such a result: the invocation cannot go on from there.
    pub fn next(self, event: Event) -> (r: Option<Step>)
        ensures
            view_of(r) == next_step(self@, event@),
    {
        match self {
            Stage::Finished => None,
            Stage::Preparing { task, arguments } => match event {
                Event::Prepared => Some(begin(task, &arguments)),
                _ => None,
            },
            Stage::Scanning => match event {
                Event::Listing(names) => Some(scan(names)),
                _ => None,
            },
            Stage::Showing { names, shown } => match event {
                Event::Content(content) => show(names, shown, content.as_str()),
                _ => None,
            },
            Stage::Adding { entry } => match event {
                Event::Listing(names) => Some(store(entry, &names)),
                _ => None,
            },
            Stage::Storing { entry } => match event {
                Event::Written => Some(finish(added(entry.as_str()))),
                _ => None,
            },
            Stage::Healing { name } => match event {
                Event::Removed => Some(finish(removed_invalid(name.as_str()))),
                _ => None,
            },
            Stage::Deleting { index } => match event {
                Event::Listing(names) => Some(remove(index, &names)),
                _ => None,
            },
            Stage::Removing { index } => match event {
                Event::Removed => Some(finish(deleted(index))),
                _ => None,
            },
            Stage::Finding { index } => match event {
                Event::Listing(names) => Some(find(index, &names)),
                _ => None,
            },
            Stage::Loading => match event {
                Event::Content(content) => Some(load(content)),
                _ => None,
            },
            Stage::Running => match event {
                Event::Output(bytes) => Some(report(lossy_text(&bytes))),
                _ => None,
            },
        }
    }
}

} // verus!
