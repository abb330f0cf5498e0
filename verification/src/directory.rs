//! A model of the data directory, and what whole invocations do to it.
//!
//! The directory is a sequence of files in the order in which it lists them.
//! A file that is written under a new name joins the end, one that is written
//! under a name in use keeps its place, and a removal leaves the others in
//! their order. Running a line in the shell is outside the model.

use vstd::prelude::*;
use crate::command::{command_of, Command};
use crate::entry::{entry_file_text, in_range, lemma_entry_file, name_index, name_number};
use crate::message::{
    added_text, deleted_text, empty_text, list_line_text, not_found_text, removed_invalid_text,
    unknown_command_text,
};
use crate::number::index_of;
use crate::protocol::{
    add_step, delete_step, find_step, load_step, next_step, remove_step, run_step, scan_step,
    show_step, start_step, store_step, EventView, RequestView, StageView, StepView,
};
use crate::text::{joined, stem};

verus! {

/// A file of the data directory.
pub struct File {
    pub name: Seq<char>,
    pub content: Seq<char>,
}

/// The names of the files, in directory order.
pub open spec fn names(dir: Seq<File>) -> Seq<Seq<char>> {
    dir.map_values(|file: File| file.name)
}

/// No two files share a name.
pub open spec fn distinct_names(dir: Seq<File>) -> bool {
    forall|i: int, j: int|
        0 <= i < j < dir.len() ==> (#[trigger] dir[i]).name != (#[trigger] dir[j]).name
}

/// Whether a file of that name exists.
pub open spec fn holds(dir: Seq<File>, name: Seq<char>) -> bool {
    exists|i: int| 0 <= i < dir.len() && (#[trigger] dir[i]).name == name
}

/// The position of a file of that name.
pub open spec fn place(dir: Seq<File>, name: Seq<char>) -> int {
    choose|i: int| 0 <= i < dir.len() && (#[trigger] dir[i]).name == name
}

/// What becomes of the directory when a request is carried out, and the
/// event that comes back. `None` where nothing comes back: there is nothing
/// to do, the file is missing, or the request is to run a line.
pub open spec fn answer(dir: Seq<File>, request: RequestView) -> Option<(Seq<File>, EventView)> {
    match request {
        RequestView::Done => None,
        RequestView::PrepareDirectory => Some((dir, EventView::Prepared)),
        RequestView::ReadDirectory => Some((dir, EventView::Listing(names(dir)))),
        RequestView::ReadFile { name } => if holds(dir, name) {
            Some((dir, EventView::Content(dir[place(dir, name)].content)))
        } else {
            None
        },
        RequestView::WriteFile { name, content } => if holds(dir, name) {
            Some((dir.update(place(dir, name), File { name, content }), EventView::Written))
        } else {
            Some((dir.push(File { name, content }), EventView::Written))
        },
        RequestView::RemoveFile { name } => if holds(dir, name) {
            Some((dir.remove(place(dir, name)), EventView::Removed))
        } else {
            None
        },
        RequestView::Execute { line } => None,
    }
}

/// How far an invocation came: the directory it left, the lines it printed,
/// and the request at which it stopped, which is `Done` where it came to its
/// end.
pub struct Outcome {
    pub dir: Seq<File>,
    pub output: Seq<Seq<char>>,
    pub pending: RequestView,
}

/// Carries out the request of `step` and those that follow, at most `limit`
/// of them, and stops at the first that has no answer.
pub open spec fn carry_on(dir: Seq<File>, step: StepView, limit: nat) -> Outcome
    decreases limit,
{
    if step.request is Done || limit == 0 {
        Outcome { dir, output: step.output, pending: step.request }
    } else {
        match answer(dir, step.request) {
            None => Outcome { dir, output: step.output, pending: step.request },
            Some((after, event)) => match next_step(step.stage, event) {
                None => Outcome { dir: after, output: step.output, pending: step.request },
                Some(following) => {
                    let rest = carry_on(after, following, (limit - 1) as nat);
                    Outcome {
                        dir: rest.dir,
                        output: step.output + rest.output,
                        pending: rest.pending,
                    }
                },
            },
        }
    }
}

/// The invocation with these process arguments, on this directory. No
/// invocation needs more requests than the directory has files, and three.
pub open spec fn invoke(dir: Seq<File>, args: Seq<Seq<char>>) -> Outcome {
    carry_on(dir, start_step(args), dir.len() + 3)
}

/// The lines of `list`: each file's content under its position, counted
/// from 1.
pub open spec fn listing(dir: Seq<File>) -> Seq<Seq<char>> {
    Seq::new(dir.len(), |i: int| list_line_text((i + 1) as nat, dir[i].content))
}

/// With distinct names, a name is found where it stands.
pub proof fn lemma_place(dir: Seq<File>, i: int)
    requires
        distinct_names(dir),
        0 <= i < dir.len(),
    ensures
        holds(dir, dir[i].name),
        place(dir, dir[i].name) == i,
        names(dir)[i] == dir[i].name,
{
    let name = dir[i].name;
    assert(dir[i].name == name);
    let p = place(dir, name);
    assert(0 <= p < dir.len() && dir[p].name == name);
    if p < i {
        assert(dir[p].name != dir[i].name);
    } else if i < p {
        assert(dir[i].name != dir[p].name);
    }
}

/// `list`, from the file at position `shown` on, prints the rest of the
/// listing and changes nothing.
proof fn lemma_show_rest(dir: Seq<File>, shown: nat, output: Seq<Seq<char>>, limit: nat)
    requires
        distinct_names(dir),
        shown < dir.len(),
        limit >= dir.len() - shown,
    ensures
        carry_on(
            dir,
            StepView {
                stage: StageView::Showing { names: names(dir), shown },
                output,
                request: RequestView::ReadFile { name: names(dir)[shown as int] },
            },
            limit,
        ) == (Outcome {
            dir,
            output: output + listing(dir).skip(shown as int),
            pending: RequestView::Done,
        }),
    decreases dir.len() - shown,
{
    let step = StepView {
        stage: StageView::Showing { names: names(dir), shown },
        output,
        request: RequestView::ReadFile { name: names(dir)[shown as int] },
    };
    lemma_place(dir, shown as int);
    let content = dir[shown as int].content;
    let line = list_line_text(shown + 1, content);
    assert(answer(dir, step.request) == Some((dir, EventView::Content(content))));
    let following = show_step(names(dir), shown, content)->0;
    assert(next_step(step.stage, EventView::Content(content)) == Some(following));
    let rest = listing(dir).skip(shown as int);
    assert(rest[0] == line);
    if shown + 1 < dir.len() {
        lemma_show_rest(dir, shown + 1, seq![line], (limit - 1) as nat);
        assert(seq![line] + listing(dir).skip(shown as int + 1) =~= rest);
        assert(output + (seq![line] + listing(dir).skip(shown as int + 1)) =~= output + rest);
    } else {
        assert(rest =~= seq![line]);
        assert(carry_on(dir, following, (limit - 1) as nat) == Outcome {
            dir,
            output: seq![line],
            pending: RequestView::Done,
        });
    }
}

/// What `list` comes to: `Empty` for a directory without files, else the
/// listing, and the directory as it was.
pub open spec fn list_outcome(dir: Seq<File>) -> Outcome {
    Outcome {
        dir,
        output: if dir.len() == 0 {
            seq![empty_text()]
        } else {
            listing(dir)
        },
        pending: RequestView::Done,
    }
}

/// `list` prints `Empty` for a directory without files, else the listing,
/// and changes nothing.
pub proof fn theorem_list(dir: Seq<File>, args: Seq<Seq<char>>)
    requires
        distinct_names(dir),
        command_of(args) == Command::List,
    ensures
        invoke(dir, args) == list_outcome(dir),
{
    let first = start_step(args);
    assert(first.request == RequestView::ReadDirectory);
    assert(answer(dir, first.request) == Some((dir, EventView::Listing(names(dir)))));
    let second = scan_step(names(dir));
    assert(next_step(first.stage, EventView::Listing(names(dir))) == Some(second));
    let limit = (dir.len() + 2) as nat;
    if dir.len() == 0 {
        assert(carry_on(dir, second, limit) == Outcome {
            dir,
            output: seq![empty_text()],
            pending: RequestView::Done,
        });
        assert(Seq::<Seq<char>>::empty() + seq![empty_text()] =~= seq![empty_text()]);
    } else {
        lemma_show_rest(dir, 0, Seq::empty(), limit);
        assert(listing(dir).skip(0) =~= listing(dir));
        assert(Seq::<Seq<char>>::empty() + listing(dir) =~= listing(dir));
        assert(Seq::<Seq<char>>::empty() + (Seq::<Seq<char>>::empty() + listing(dir)) =~= listing(
            dir,
        ));
    }
}

/// What `delete` comes to: with a display index in range, the directory
/// without the file at that place; with one out of range, the directory as it
/// was; and the line that says which.
pub open spec fn delete_outcome(dir: Seq<File>, index: nat) -> Outcome {
    if in_range(index, dir.len()) {
        Outcome {
            dir: dir.remove(index - 1),
            output: seq![deleted_text(index)],
            pending: RequestView::Done,
        }
    } else {
        Outcome { dir, output: seq![not_found_text(index)], pending: RequestView::Done }
    }
}

/// `delete` with an index in range removes the file at that place and says
/// so; with one out of range it says that and changes nothing.
pub proof fn theorem_delete(dir: Seq<File>, args: Seq<Seq<char>>, index: usize)
    requires
        distinct_names(dir),
        command_of(args) == Command::Delete,
        args.len() == 3,
        index_of(args[2]) == Some(index),
    ensures
        invoke(dir, args) == delete_outcome(dir, index as nat),
{
    let limit = (dir.len() + 3) as nat;
    let arguments = args.skip(2);
    assert(arguments.len() == 1 && arguments[0] == args[2]);
    let first = start_step(args);
    assert(answer(dir, first.request) == Some((dir, EventView::Prepared)));
    let second = delete_step(arguments);
    assert(next_step(first.stage, EventView::Prepared) == Some(second));
    assert(answer(dir, second.request) == Some((dir, EventView::Listing(names(dir)))));
    let third = remove_step(index as nat, names(dir));
    assert(next_step(second.stage, EventView::Listing(names(dir))) == Some(third));
    if in_range(index as nat, dir.len()) {
        lemma_place(dir, index - 1);
        let after = dir.remove(index - 1);
        assert(answer(dir, third.request) == Some((after, EventView::Removed)));
        let last = StepView {
            stage: StageView::Finished,
            output: seq![deleted_text(index as nat)],
            request: RequestView::Done,
        };
        assert(next_step(third.stage, EventView::Removed) == Some(last));
        assert(carry_on(after, last, (limit - 3) as nat).output == last.output);
        assert(carry_on(dir, third, (limit - 2) as nat).output =~= last.output);
        assert(carry_on(dir, second, (limit - 1) as nat).output =~= last.output);
        assert(carry_on(dir, first, limit).output =~= last.output);
    } else {
        assert(carry_on(dir, third, (limit - 2) as nat).output == third.output);
        assert(carry_on(dir, second, (limit - 1) as nat).output =~= third.output);
        assert(carry_on(dir, first, limit).output =~= third.output);
    }
}

/// What `add` leaves of the directory: a first file of index 1; after a last
/// file that carries an index, the file of the next index, at the end or in
/// the place of a file of that name; and without the last file where that
/// carries no index.
pub open spec fn after_add(dir: Seq<File>, entry: Seq<char>) -> Seq<File> {
    if dir.len() == 0 {
        seq![File { name: entry_file_text(1), content: entry }]
    } else {
        match name_index(dir.last().name) {
            Some(last) => {
                let name = entry_file_text((last + 1) as nat);
                if holds(dir, name) {
                    dir.update(place(dir, name), File { name, content: entry })
                } else {
                    dir.push(File { name, content: entry })
                }
            },
            None => dir.drop_last(),
        }
    }
}

/// The line of `add`: that the entry was stored, or that the last file,
/// which carries no index, was removed.
pub open spec fn add_line(dir: Seq<File>, entry: Seq<char>) -> Seq<char> {
    if dir.len() > 0 && name_index(dir.last().name) is None {
        removed_invalid_text(stem(dir.last().name))
    } else {
        added_text(entry)
    }
}

/// What `add` comes to.
pub open spec fn add_outcome(dir: Seq<File>, entry: Seq<char>) -> Outcome {
    Outcome {
        dir: after_add(dir, entry),
        output: seq![add_line(dir, entry)],
        pending: RequestView::Done,
    }
}

/// `add` with words stores them, joined, as `after_add` says, and prints the
/// line that `add_line` says.
pub proof fn theorem_add(dir: Seq<File>, args: Seq<Seq<char>>)
    requires
        distinct_names(dir),
        command_of(args) == Command::Add,
        args.len() >= 3,
    ensures
        invoke(dir, args) == add_outcome(dir, joined(args.skip(2))),
{
    let limit = (dir.len() + 3) as nat;
    let arguments = args.skip(2);
    let entry = joined(arguments);
    let first = start_step(args);
    assert(answer(dir, first.request) == Some((dir, EventView::Prepared)));
    let second = add_step(arguments);
    assert(next_step(first.stage, EventView::Prepared) == Some(second));
    assert(answer(dir, second.request) == Some((dir, EventView::Listing(names(dir)))));
    let third = store_step(entry, names(dir));
    assert(next_step(second.stage, EventView::Listing(names(dir))) == Some(third));
    let after = after_add(dir, entry);
    let last = StepView {
        stage: StageView::Finished,
        output: seq![add_line(dir, entry)],
        request: RequestView::Done,
    };
    if dir.len() == 0 {
        assert(!holds(dir, entry_file_text(1)));
        assert(dir.push(File { name: entry_file_text(1), content: entry }) =~= after);
        assert(answer(dir, third.request) == Some((after, EventView::Written)));
        assert(next_step(third.stage, EventView::Written) == Some(last));
    } else {
        lemma_place(dir, dir.len() - 1);
        assert(names(dir).last() == dir.last().name);
        match name_index(dir.last().name) {
            Some(index) => {
                assert(answer(dir, third.request) == Some((after, EventView::Written)));
                assert(next_step(third.stage, EventView::Written) == Some(last));
            },
            None => {
                assert(dir.remove(dir.len() - 1) =~= dir.drop_last());
                assert(answer(dir, third.request) == Some((after, EventView::Removed)));
                assert(next_step(third.stage, EventView::Removed) == Some(last));
            },
        }
    }
    assert(carry_on(after, last, (limit - 3) as nat).output == last.output);
    assert(carry_on(dir, third, (limit - 2) as nat).output =~= last.output);
    assert(carry_on(dir, second, (limit - 1) as nat).output =~= last.output);
    assert(carry_on(dir, first, limit).output =~= last.output);
}

/// How far `run` comes in the model: with a display index in range, to the
/// request to execute the content of the file at that place, with nothing
/// printed yet; with one out of range, to the line that says so. The
/// directory is as it was.
pub open spec fn run_outcome(dir: Seq<File>, index: nat) -> Outcome {
    if in_range(index, dir.len()) {
        Outcome {
            dir,
            output: Seq::empty(),
            pending: RequestView::Execute { line: dir[index - 1].content },
        }
    } else {
        Outcome { dir, output: seq![not_found_text(index)], pending: RequestView::Done }
    }
}

/// `run` with an index in range reads the entry at that place and asks for
/// its content to be executed; with an index out of range it says that.
pub proof fn theorem_run(dir: Seq<File>, args: Seq<Seq<char>>, index: usize)
    requires
        distinct_names(dir),
        command_of(args) == Command::Run,
        index_of(args[1]) == Some(index),
    ensures
        invoke(dir, args) == run_outcome(dir, index as nat),
{
    let limit = (dir.len() + 3) as nat;
    let arguments = seq![args[1]];
    let first = start_step(args);
    assert(answer(dir, first.request) == Some((dir, EventView::Prepared)));
    let second = run_step(arguments);
    assert(next_step(first.stage, EventView::Prepared) == Some(second));
    assert(answer(dir, second.request) == Some((dir, EventView::Listing(names(dir)))));
    let third = find_step(index as nat, names(dir));
    assert(next_step(second.stage, EventView::Listing(names(dir))) == Some(third));
    if in_range(index as nat, dir.len()) {
        lemma_place(dir, index - 1);
        let content = dir[index - 1].content;
        assert(answer(dir, third.request) == Some((dir, EventView::Content(content))));
        let fourth = load_step(content);
        assert(next_step(third.stage, EventView::Content(content)) == Some(fourth));
        assert(answer(dir, fourth.request) is None);
        assert(carry_on(dir, fourth, (limit - 3) as nat).output == fourth.output);
        assert(carry_on(dir, third, (limit - 2) as nat).output =~= fourth.output);
        assert(carry_on(dir, second, (limit - 1) as nat).output =~= fourth.output);
        assert(carry_on(dir, first, limit).output =~= fourth.output);
    } else {
        assert(carry_on(dir, third, (limit - 2) as nat).output == third.output);
        assert(carry_on(dir, second, (limit - 1) as nat).output =~= third.output);
        assert(carry_on(dir, first, limit).output =~= third.output);
    }
}

/// Every invocation but `run` comes to its end: no file that it asks for is
/// missing, and its requests are no more than `invoke` allows.
pub proof fn theorem_ends(dir: Seq<File>, args: Seq<Seq<char>>)
    requires
        distinct_names(dir),
        command_of(args) != Command::Run,
    ensures
        invoke(dir, args).pending is Done,
{
    let limit = (dir.len() + 3) as nat;
    let first = start_step(args);
    match command_of(args) {
        Command::List => {
            theorem_list(dir, args);
        },
        Command::Add => {
            if args.len() >= 3 {
                theorem_add(dir, args);
            } else {
                assert(answer(dir, first.request) == Some((dir, EventView::Prepared)));
                let second = add_step(args.skip(2));
                assert(next_step(first.stage, EventView::Prepared) == Some(second));
                assert(carry_on(dir, second, (limit - 1) as nat).pending is Done);
            }
        },
        Command::Delete => {
            let arguments = args.skip(2);
            if args.len() == 3 && index_of(args[2]) is Some {
                theorem_delete(dir, args, index_of(args[2])->0);
            } else {
                assert(answer(dir, first.request) == Some((dir, EventView::Prepared)));
                let second = delete_step(arguments);
                assert(next_step(first.stage, EventView::Prepared) == Some(second));
                if arguments.len() == 1 {
                    assert(arguments[0] == args[2]);
                }
                assert(carry_on(dir, second, (limit - 1) as nat).pending is Done);
            }
        },
        _ => {},
    }
}

/// Only `add` and `delete` change the directory: after any other invocation
/// it is as it was.
pub proof fn theorem_others_change_nothing(dir: Seq<File>, args: Seq<Seq<char>>)
    requires
        distinct_names(dir),
        command_of(args) != Command::Add,
        command_of(args) != Command::Delete,
    ensures
        invoke(dir, args).dir == dir,
{
    match command_of(args) {
        Command::List => {
            theorem_list(dir, args);
        },
        Command::Run => {
            theorem_run(dir, args, index_of(args[1])->0);
        },
        _ => {},
    }
}

/// The directory after a request: as `answer` leaves it, or as it was where
/// the request has no answer.
pub open spec fn directory_after(dir: Seq<File>, request: RequestView) -> Seq<File> {
    match answer(dir, request) {
        Some((after, event)) => after,
        None => dir,
    }
}

/// Carrying a request out leaves no two files with one name.
pub proof fn lemma_answer_keeps_names_distinct(dir: Seq<File>, request: RequestView)
    requires
        distinct_names(dir),
    ensures
        distinct_names(directory_after(dir, request)),
{
    let after = directory_after(dir, request);
    match request {
        RequestView::WriteFile { name, content } => {
            if holds(dir, name) {
                let at = place(dir, name);
                assert forall|i: int, j: int| 0 <= i < j < after.len() implies (
                #[trigger] after[i]).name != (#[trigger] after[j]).name by {
                    assert(after[i].name == dir[i].name && after[j].name == dir[j].name);
                }
            } else {
                assert forall|i: int, j: int| 0 <= i < j < after.len() implies (
                #[trigger] after[i]).name != (#[trigger] after[j]).name by {
                    assert(after[i] == dir[i]);
                    if j < dir.len() {
                        assert(after[j] == dir[j]);
                    }
                }
            }
        },
        RequestView::RemoveFile { name } => {
            if holds(dir, name) {
                let at = place(dir, name);
                assert forall|i: int, j: int| 0 <= i < j < after.len() implies (
                #[trigger] after[i]).name != (#[trigger] after[j]).name by {
                    let from_i = if i < at { i } else { i + 1 };
                    let from_j = if j < at { j } else { j + 1 };
                    assert(after[i] == dir[from_i] && after[j] == dir[from_j]);
                }
            }
        },
        _ => {},
    }
}

/// However far the requests are carried out, no two files come to share a
/// name.
pub proof fn lemma_carry_on_keeps_names_distinct(dir: Seq<File>, step: StepView, limit: nat)
    requires
        distinct_names(dir),
    ensures
        distinct_names(carry_on(dir, step, limit).dir),
    decreases limit,
{
    if !(step.request is Done) && limit > 0 {
        match answer(dir, step.request) {
            Some((after, event)) => {
                lemma_answer_keeps_names_distinct(dir, step.request);
                match next_step(step.stage, event) {
                    Some(following) => {
                        lemma_carry_on_keeps_names_distinct(after, following, (limit - 1) as nat);
                    },
                    None => {},
                }
            },
            None => {},
        }
    }
}

/// No invocation leaves two files with one name.
pub proof fn theorem_names_stay_distinct(dir: Seq<File>, args: Seq<Seq<char>>)
    requires
        distinct_names(dir),
    ensures
        distinct_names(invoke(dir, args).dir),
{
    lemma_carry_on_keeps_names_distinct(dir, start_step(args), dir.len() + 3);
}

/// No file carries a number above `top`.
pub open spec fn none_above(dir: Seq<File>, top: nat) -> bool {
    forall|i: int|
        0 <= i < dir.len() ==> match name_number((#[trigger] dir[i]).name) {
            Some(number) => number <= top,
            None => true,
        }
}

/// A directory in which no file carries a number above `top` has no file of
/// a higher index.
pub proof fn lemma_fresh_name(dir: Seq<File>, top: nat, index: nat)
    requires
        none_above(dir, top),
        index > top,
    ensures
        !holds(dir, entry_file_text(index)),
{
    lemma_entry_file(index);
    if holds(dir, entry_file_text(index)) {
        let i = place(dir, entry_file_text(index));
        assert(name_number(dir[i].name) == Some(index));
    }
}

/// Removing an entry by its display index and then listing shows the other
/// entries, in their order and one fewer.
pub proof fn law_delete_then_list(
    dir: Seq<File>,
    delete_args: Seq<Seq<char>>,
    list_args: Seq<Seq<char>>,
    index: usize,
)
    requires
        distinct_names(dir),
        command_of(delete_args) == Command::Delete,
        delete_args.len() == 3,
        index_of(delete_args[2]) == Some(index),
        in_range(index as nat, dir.len()),
        command_of(list_args) == Command::List,
    ensures
        ({
            let after = invoke(dir, delete_args).dir;
            let shown = invoke(after, list_args).output;
            &&& after == dir.remove(index - 1)
            &&& after.len() == dir.len() - 1
            &&& after.len() > 0 ==> shown == listing(after)
            &&& after.len() == 0 ==> shown == seq![empty_text()]
            &&& listing(after).len() == dir.len() - 1
        }),
{
    theorem_delete(dir, delete_args, index);
    theorem_names_stay_distinct(dir, delete_args);
    theorem_list(dir.remove(index - 1), list_args);
}

/// After an entry was removed by its display index, no entry that is left
/// has its content, where no other entry had that content before.
pub proof fn law_deleted_content_is_gone(dir: Seq<File>, delete_args: Seq<Seq<char>>, index: usize)
    requires
        distinct_names(dir),
        command_of(delete_args) == Command::Delete,
        delete_args.len() == 3,
        index_of(delete_args[2]) == Some(index),
        in_range(index as nat, dir.len()),
        forall|j: int|
            0 <= j < dir.len() && j != index - 1 ==> (#[trigger] dir[j]).content != dir[index
                - 1].content,
    ensures
        ({
            let after = invoke(dir, delete_args).dir;
            forall|j: int|
                0 <= j < after.len() ==> (#[trigger] after[j]).content != dir[index - 1].content
        }),
{
    theorem_delete(dir, delete_args, index);
    let after = dir.remove(index - 1);
    assert forall|j: int| 0 <= j < after.len() implies (#[trigger] after[j]).content != dir[index
        - 1].content by {
        let from = if j < index - 1 {
            j
        } else {
            j + 1
        };
        assert(after[j] == dir[from]);
    }
}

/// Adding to a directory without files makes the file of index 1, with the
/// words as its content.
pub proof fn law_add_first(args: Seq<Seq<char>>)
    requires
        command_of(args) == Command::Add,
        args.len() >= 3,
    ensures
        invoke(Seq::empty(), args).dir.len() == 1,
        invoke(Seq::empty(), args).dir[0].name == entry_file_text(1),
        invoke(Seq::empty(), args).dir[0].content == joined(args.skip(2)),
        invoke(Seq::empty(), args).output == seq![added_text(joined(args.skip(2)))],
{
    theorem_add(Seq::empty(), args);
}

/// Adding where the last file carries the highest index, `top`, makes the
/// file of index `top + 1` at the end and leaves the others as they were.
pub proof fn law_add_next(dir: Seq<File>, args: Seq<Seq<char>>, top: usize)
    requires
        distinct_names(dir),
        command_of(args) == Command::Add,
        args.len() >= 3,
        dir.len() > 0,
        name_index(dir.last().name) == Some(top),
        none_above(dir, top as nat),
    ensures
        invoke(dir, args).dir.len() == dir.len() + 1,
        invoke(dir, args).dir.drop_last() == dir,
        invoke(dir, args).dir.last().name == entry_file_text((top + 1) as nat),
        invoke(dir, args).dir.last().content == joined(args.skip(2)),
        invoke(dir, args).output == seq![added_text(joined(args.skip(2)))],
{
    theorem_add(dir, args);
    lemma_fresh_name(dir, top as nat, (top + 1) as nat);
}

/// Adding an entry and then listing shows it last, under the display index
/// that follows those of the entries before it and with the words as they
/// were given, where the new file's name was not in use: the directory was
/// without files, or its last file carried the highest index.
pub proof fn law_add_then_list(
    dir: Seq<File>,
    add_args: Seq<Seq<char>>,
    list_args: Seq<Seq<char>>,
)
    requires
        distinct_names(dir),
        command_of(add_args) == Command::Add,
        add_args.len() >= 3,
        command_of(list_args) == Command::List,
        dir.len() > 0 ==> name_index(dir.last().name) is Some && none_above(
            dir,
            name_index(dir.last().name)->0 as nat,
        ),
    ensures
        ({
            let after = invoke(dir, add_args).dir;
            let shown = invoke(after, list_args).output;
            &&& after.len() == dir.len() + 1
            &&& after.last().content == joined(add_args.skip(2))
            &&& shown == listing(after)
            &&& shown.len() == dir.len() + 1
            &&& shown.last() == list_line_text(dir.len() + 1, joined(add_args.skip(2)))
            &&& forall|i: int| 0 <= i < dir.len() ==> shown[i] == listing(dir)[i]
        }),
{
    if dir.len() == 0 {
        theorem_add(dir, add_args);
    } else {
        law_add_next(dir, add_args, name_index(dir.last().name)->0);
    }
    theorem_names_stay_distinct(dir, add_args);
    theorem_list(invoke(dir, add_args).dir, list_args);
}

/// A verb that is not understood prints its line, asks for nothing and
/// leaves the directory as it was.
pub proof fn law_unknown_verb(dir: Seq<File>, args: Seq<Seq<char>>)
    requires
        command_of(args) == Command::Unknown,
    ensures
        start_step(args).request is Done,
        invoke(dir, args).dir == dir,
        invoke(dir, args).output == seq![unknown_command_text(Seq::empty(), args[1])],
        invoke(dir, args).pending is Done,
{
}

} // verus!
