use pls::protocol::Task;
use pls::session::{
    add, begin, delete, find, help, list, load, remove, report, run, scan, show, start, store,
    version, Event, Request, Stage, Step,
};

fn words(list: &[&str]) -> Vec<String> {
    list.iter().map(|w| w.to_string()).collect()
}

fn finished(lines: &[&str]) -> Step {
    Step { stage: Stage::Finished, output: words(lines), request: Request::Done }
}

fn waiting(stage: Stage, request: Request) -> Step {
    Step { stage, output: Vec::new(), request }
}

/// A directory in memory: names and contents, in listing order.
fn carry_out(dir: &mut Vec<(String, String)>, request: &Request) -> Event {
    match request {
        Request::Done => unreachable!(),
        Request::PrepareDirectory => Event::Prepared,
        Request::ReadDirectory => Event::Listing(dir.iter().map(|f| f.0.clone()).collect()),
        Request::ReadFile { name } => {
            Event::Content(dir.iter().find(|f| &f.0 == name).unwrap().1.clone())
        }
        Request::WriteFile { name, content } => {
            match dir.iter().position(|f| &f.0 == name) {
                Some(at) => dir[at].1 = content.clone(),
                None => dir.push((name.clone(), content.clone())),
            }
            Event::Written
        }
        Request::RemoveFile { name } => {
            let at = dir.iter().position(|f| &f.0 == name).unwrap();
            dir.remove(at);
            Event::Removed
        }
        Request::Execute { line } => Event::Output(format!("ran: {}\n", line).into_bytes()),
    }
}

fn invoke(dir: &mut Vec<(String, String)>, args: &[&str]) -> Vec<String> {
    let mut printed = Vec::new();
    let mut step = start(&words(args));
    loop {
        printed.extend(step.output.iter().cloned());
        if step.request == Request::Done {
            assert_eq!(step.stage, Stage::Finished);
            return printed;
        }
        let event = carry_out(dir, &step.request);
        step = step.stage.next(event).unwrap();
    }
}

fn files(list: &[(&str, &str)]) -> Vec<(String, String)> {
    list.iter().map(|f| (f.0.to_string(), f.1.to_string())).collect()
}

#[test]
fn help_prints_the_usage_and_is_done() {
    let step = help();
    assert_eq!(step.stage, Stage::Finished);
    assert_eq!(step.request, Request::Done);
    assert_eq!(step.output.len(), 5);
    assert_eq!(step.output[0], "Commands & Usage:");
    assert_eq!(step.output[4], "> pls delete <X>   Delete pls");
}

#[test]
fn help_ignores_what_follows() {
    assert_eq!(start(&words(&["pls", "help", "me", "now"])), help());
    assert_eq!(start(&words(&["pls", "-h"])), help());
}

#[test]
fn version_prints_the_version() {
    assert_eq!(version(&words(&[])), finished(&["pls v1.0.0"]));
    assert_eq!(start(&words(&["pls", "version"])), finished(&["pls v1.0.0"]));
    assert_eq!(start(&words(&["pls", "-v"])), finished(&["pls v1.0.0"]));
}

#[test]
fn version_with_arguments_is_unknown() {
    assert_eq!(
        version(&words(&["now", "please"])),
        finished(&["Unknown command: 'pls version now please'. More help: 'pls help'"])
    );
    assert_eq!(
        start(&words(&["pls", "--version", "x"])),
        finished(&["Unknown command: 'pls version x'. More help: 'pls help'"])
    );
}

#[test]
fn list_asks_for_the_names() {
    assert_eq!(list(&words(&[])), waiting(Stage::Scanning, Request::ReadDirectory));
    assert_eq!(start(&words(&["pls"])), waiting(Stage::Scanning, Request::ReadDirectory));
    assert_eq!(start(&words(&[])), waiting(Stage::Scanning, Request::ReadDirectory));
}

#[test]
fn list_with_arguments_is_unknown() {
    assert_eq!(
        list(&words(&["all", "of", "them"])),
        finished(&["Unknown command: 'pls list all of them'. More help: 'pls help'"])
    );
}

#[test]
fn list_on_an_empty_directory_prints_exactly_empty() {
    assert_eq!(scan(Vec::new()), finished(&["Empty"]));
    let mut dir = files(&[]);
    assert_eq!(invoke(&mut dir, &["pls"]), vec!["Empty"]);
    assert!(dir.is_empty());
}

#[test]
fn list_reads_and_shows_one_file_after_the_other() {
    let names = words(&["1.txt", "2.txt"]);
    let first = scan(names.clone());
    assert_eq!(
        first,
        waiting(
            Stage::Showing { names: names.clone(), shown: 0 },
            Request::ReadFile { name: "1.txt".to_string() }
        )
    );
    let second = first.stage.next(Event::Content("ls".to_string())).unwrap();
    assert_eq!(
        second,
        Step {
            stage: Stage::Showing { names: names.clone(), shown: 1 },
            output: words(&["[1] ls"]),
            request: Request::ReadFile { name: "2.txt".to_string() },
        }
    );
    let third = second.stage.next(Event::Content("pwd".to_string())).unwrap();
    assert_eq!(third, finished(&["[2] pwd"]));
    assert_eq!(show(names.clone(), 1, "pwd"), Some(finished(&["[2] pwd"])));
    assert_eq!(show(names.clone(), 2, "pwd"), None);
    assert_eq!(show(Vec::new(), 0, "pwd"), None);
}

#[test]
fn list_numbers_by_position_not_by_file_name() {
    let mut dir = files(&[("2.txt", "ls"), ("5.txt", "pwd"), ("9.txt", "date")]);
    assert_eq!(invoke(&mut dir, &["pls"]), vec!["[1] ls", "[2] pwd", "[3] date"]);
    assert_eq!(dir, files(&[("2.txt", "ls"), ("5.txt", "pwd"), ("9.txt", "date")]));
}

#[test]
fn add_without_words_prints_the_example() {
    assert_eq!(add(&words(&[])), finished(&["Example: 'pls add cd /home/user/projects'"]));
    let mut dir = files(&[("1.txt", "ls")]);
    assert_eq!(invoke(&mut dir, &["pls", "add"]), vec!["Example: 'pls add cd /home/user/projects'"]);
    assert_eq!(dir, files(&[("1.txt", "ls")]));
}

#[test]
fn add_joins_its_words_and_asks_for_the_names() {
    assert_eq!(
        add(&words(&["cd", "/home/user/projects"])),
        waiting(
            Stage::Adding { entry: "cd /home/user/projects".to_string() },
            Request::ReadDirectory
        )
    );
}

#[test]
fn add_first_has_the_directory_made() {
    assert_eq!(
        start(&words(&["pls", "add", "ls", "-la"])),
        waiting(
            Stage::Preparing { task: Task::Add, arguments: words(&["ls", "-la"]) },
            Request::PrepareDirectory
        )
    );
    assert_eq!(begin(Task::Add, &words(&["ls", "-la"])), add(&words(&["ls", "-la"])));
}

#[test]
fn adding_to_an_empty_directory_creates_index_one() {
    assert_eq!(
        store("x".to_string(), &Vec::new()),
        waiting(
            Stage::Storing { entry: "x".to_string() },
            Request::WriteFile { name: "1.txt".to_string(), content: "x".to_string() }
        )
    );
    let mut dir = files(&[]);
    assert_eq!(invoke(&mut dir, &["pls", "add", "x"]), vec!["Added: \"x\""]);
    assert_eq!(dir, files(&[("1.txt", "x")]));
}

#[test]
fn adding_after_index_k_creates_index_k_plus_one() {
    assert_eq!(
        store("x".to_string(), &words(&["1.txt", "2.txt", "7.txt"])),
        waiting(
            Stage::Storing { entry: "x".to_string() },
            Request::WriteFile { name: "8.txt".to_string(), content: "x".to_string() }
        )
    );
    let mut dir = files(&[("3.txt", "ls"), ("9.txt", "pwd")]);
    assert_eq!(invoke(&mut dir, &["pls", "new", "echo", "hi"]), vec!["Added: \"echo hi\""]);
    assert_eq!(dir, files(&[("3.txt", "ls"), ("9.txt", "pwd"), ("10.txt", "echo hi")]));
}

#[test]
fn adding_goes_by_the_last_name_listed() {
    assert_eq!(
        store("x".to_string(), &words(&["9.txt", "2.txt"])),
        waiting(
            Stage::Storing { entry: "x".to_string() },
            Request::WriteFile { name: "3.txt".to_string(), content: "x".to_string() }
        )
    );
}

#[test]
fn adding_after_the_largest_index_does_not_wrap() {
    let last = format!("{}.txt", usize::MAX);
    let next = format!("{}.txt", usize::MAX as u128 + 1);
    assert_eq!(
        store("x".to_string(), &vec![last]),
        waiting(
            Stage::Storing { entry: "x".to_string() },
            Request::WriteFile { name: next, content: "x".to_string() }
        )
    );
}

#[test]
fn add_then_list_shows_the_new_entry_last() {
    let mut dir = files(&[("1.txt", "ls"), ("2.txt", "pwd")]);
    assert_eq!(invoke(&mut dir, &["pls", "add", "x"]), vec!["Added: \"x\""]);
    assert_eq!(invoke(&mut dir, &["pls"]), vec!["[1] ls", "[2] pwd", "[3] x"]);
}

#[test]
fn add_removes_a_last_file_that_names_no_index() {
    assert_eq!(
        store("x".to_string(), &words(&["1.txt", "notes.txt"])),
        waiting(
            Stage::Healing { name: "notes".to_string() },
            Request::RemoveFile { name: "notes.txt".to_string() }
        )
    );
    let mut dir = files(&[("1.txt", "ls"), ("notes", "stray")]);
    assert_eq!(
        invoke(&mut dir, &["pls", "add", "x"]),
        vec!["Removed invalid pls: 'notes'. pls not modify files by yourself."]
    );
    assert_eq!(dir, files(&[("1.txt", "ls")]));
    assert_eq!(invoke(&mut dir, &["pls", "add", "x"]), vec!["Added: \"x\""]);
    assert_eq!(dir, files(&[("1.txt", "ls"), ("2.txt", "x")]));
}

#[test]
fn add_heals_one_file_at_a_time() {
    let mut dir = files(&[("1.txt", "ls"), ("a", "stray"), ("b", "stray")]);
    assert_eq!(
        invoke(&mut dir, &["pls", "add", "x"]),
        vec!["Removed invalid pls: 'b'. pls not modify files by yourself."]
    );
    assert_eq!(dir, files(&[("1.txt", "ls"), ("a", "stray")]));
}

#[test]
fn delete_without_exactly_one_argument_prints_the_example() {
    assert_eq!(delete(&words(&[])), finished(&["Example: 'pls delete 2'"]));
    assert_eq!(delete(&words(&["1", "2"])), finished(&["Example: 'pls delete 2'"]));
}

#[test]
fn delete_of_what_is_no_index_is_unknown() {
    assert_eq!(
        delete(&words(&["two"])),
        finished(&["Unknown command: 'pls delete two'. More help: 'pls help'"])
    );
    assert_eq!(
        delete(&words(&["-1"])),
        finished(&["Unknown command: 'pls delete -1'. More help: 'pls help'"])
    );
}

#[test]
fn delete_removes_the_file_at_the_display_index() {
    assert_eq!(delete(&words(&["2"])), waiting(Stage::Deleting { index: 2 }, Request::ReadDirectory));
    assert_eq!(
        remove(2, &words(&["1.txt", "4.txt", "6.txt"])),
        waiting(Stage::Removing { index: 2 }, Request::RemoveFile { name: "4.txt".to_string() })
    );
    assert_eq!(Stage::Removing { index: 2 }.next(Event::Removed), Some(finished(&["Deleted: [2]"])));
}

#[test]
fn delete_then_list_shows_the_others() {
    let mut dir = files(&[("1.txt", "ls"), ("2.txt", "pwd"), ("3.txt", "date")]);
    assert_eq!(invoke(&mut dir, &["pls", "delete", "2"]), vec!["Deleted: [2]"]);
    assert_eq!(dir, files(&[("1.txt", "ls"), ("3.txt", "date")]));
    assert_eq!(invoke(&mut dir, &["pls"]), vec!["[1] ls", "[2] date"]);
}

#[test]
fn delete_of_every_valid_index_leaves_one_entry_fewer() {
    for index in 1..=4usize {
        let mut dir = files(&[("1.txt", "a"), ("2.txt", "b"), ("3.txt", "c"), ("4.txt", "d")]);
        let gone = dir[index - 1].1.clone();
        let said = invoke(&mut dir, &["pls", "del", &index.to_string()]);
        assert_eq!(said, vec![format!("Deleted: [{}]", index)]);
        let shown = invoke(&mut dir, &["pls"]);
        assert_eq!(shown.len(), 3);
        for line in shown {
            assert!(!line.ends_with(&format!(" {}", gone)));
        }
    }
}

#[test]
fn delete_out_of_range_is_not_found_and_changes_nothing() {
    let mut dir = files(&[("1.txt", "ls"), ("2.txt", "pwd"), ("3.txt", "date")]);
    assert_eq!(invoke(&mut dir, &["pls", "delete", "99"]), vec!["Not found: [99]"]);
    assert_eq!(dir, files(&[("1.txt", "ls"), ("2.txt", "pwd"), ("3.txt", "date")]));
    assert_eq!(remove(99, &words(&["1.txt", "2.txt", "3.txt"])), finished(&["Not found: [99]"]));
    assert_eq!(remove(0, &words(&["1.txt", "2.txt", "3.txt"])), finished(&["Not found: [0]"]));
    assert_eq!(remove(4, &words(&["1.txt", "2.txt", "3.txt"])), finished(&["Not found: [4]"]));
    assert_eq!(remove(1, &words(&[])), finished(&["Not found: [1]"]));
}

#[test]
fn delete_last_then_add_uses_the_index_after_the_new_last() {
    let mut dir = files(&[("1.txt", "a"), ("2.txt", "b"), ("3.txt", "c")]);
    invoke(&mut dir, &["pls", "delete", "3"]);
    invoke(&mut dir, &["pls", "add", "d"]);
    assert_eq!(dir, files(&[("1.txt", "a"), ("2.txt", "b"), ("3.txt", "d")]));
}

#[test]
fn run_takes_exactly_one_index() {
    assert_eq!(run(&words(&["1"])), waiting(Stage::Finding { index: 1 }, Request::ReadDirectory));
    assert_eq!(
        run(&words(&[])),
        finished(&["Unknown command: 'pls run '. More help: 'pls help'"])
    );
    assert_eq!(
        run(&words(&["1", "2"])),
        finished(&["Unknown command: 'pls run 1 2'. More help: 'pls help'"])
    );
    assert_eq!(
        run(&words(&["one"])),
        finished(&["Unknown command: 'pls run one'. More help: 'pls help'"])
    );
}

#[test]
fn a_bare_index_runs_that_entry() {
    assert_eq!(
        start(&words(&["pls", "2", "ignored"])),
        waiting(
            Stage::Preparing { task: Task::Run, arguments: words(&["2"]) },
            Request::PrepareDirectory
        )
    );
}

#[test]
fn run_of_echo_hello_prints_hello() {
    let first = start(&words(&["pls", "1"]));
    assert_eq!(first.request, Request::PrepareDirectory);
    let second = first.stage.next(Event::Prepared).unwrap();
    assert_eq!(second, waiting(Stage::Finding { index: 1 }, Request::ReadDirectory));
    let third = second.stage.next(Event::Listing(words(&["1.txt"]))).unwrap();
    assert_eq!(third, waiting(Stage::Loading, Request::ReadFile { name: "1.txt".to_string() }));
    let fourth = third.stage.next(Event::Content("echo hello".to_string())).unwrap();
    assert_eq!(
        fourth,
        waiting(Stage::Running, Request::Execute { line: "echo hello".to_string() })
    );
    let fifth = fourth.stage.next(Event::Output(b"hello\n".to_vec())).unwrap();
    assert_eq!(fifth, finished(&["hello\n"]));
}

#[test]
fn run_out_of_range_is_not_found() {
    assert_eq!(find(0, &words(&["1.txt"])), finished(&["Not found: [0]"]));
    assert_eq!(find(2, &words(&["1.txt"])), finished(&["Not found: [2]"]));
    assert_eq!(
        find(1, &words(&["5.txt"])),
        waiting(Stage::Loading, Request::ReadFile { name: "5.txt".to_string() })
    );
    let mut dir = files(&[("1.txt", "ls")]);
    assert_eq!(invoke(&mut dir, &["pls", "7"]), vec!["Not found: [7]"]);
}

#[test]
fn run_hands_the_content_to_the_shell_as_it_is() {
    assert_eq!(
        load("ls -la | wc -l".to_string()),
        waiting(Stage::Running, Request::Execute { line: "ls -la | wc -l".to_string() })
    );
    let mut dir = files(&[("1.txt", "ls"), ("2.txt", "date +%s")]);
    assert_eq!(invoke(&mut dir, &["pls", "2"]), vec!["ran: date +%s\n"]);
}

#[test]
fn run_prints_the_output_as_text() {
    assert_eq!(report("hello\n".to_string()), finished(&["hello\n"]));
    assert_eq!(Stage::Running.next(Event::Output(Vec::new())), Some(finished(&[""])));
    assert_eq!(
        Stage::Running.next(Event::Output(vec![0x68, 0x69, 0xff, 0x21])),
        Some(finished(&["hi\u{fffd}!"]))
    );
    assert_eq!(
        Stage::Running.next(Event::Output(vec![0xc3, 0xa9])),
        Some(finished(&["\u{e9}"]))
    );
}

#[test]
fn an_unknown_verb_prints_its_line_and_asks_for_nothing() {
    assert_eq!(
        start(&words(&["pls", "frobnicate"])),
        finished(&["Unknown command: 'pls  frobnicate'. More help: 'pls help'"])
    );
    assert_eq!(
        start(&words(&["pls", "frobnicate", "now"])),
        finished(&["Unknown command: 'pls  frobnicate'. More help: 'pls help'"])
    );
    let mut dir = files(&[("1.txt", "ls")]);
    invoke(&mut dir, &["pls", "frobnicate"]);
    assert_eq!(dir, files(&[("1.txt", "ls")]));
}

#[test]
fn an_event_that_answers_nothing_ends_in_none() {
    assert_eq!(Stage::Finished.next(Event::Prepared), None);
    assert_eq!(Stage::Scanning.next(Event::Prepared), None);
    assert_eq!(Stage::Scanning.next(Event::Content("x".to_string())), None);
    assert_eq!(Stage::Adding { entry: "x".to_string() }.next(Event::Written), None);
    assert_eq!(Stage::Storing { entry: "x".to_string() }.next(Event::Removed), None);
    assert_eq!(Stage::Healing { name: "x".to_string() }.next(Event::Written), None);
    assert_eq!(Stage::Deleting { index: 1 }.next(Event::Removed), None);
    assert_eq!(Stage::Removing { index: 1 }.next(Event::Listing(Vec::new())), None);
    assert_eq!(Stage::Finding { index: 1 }.next(Event::Content("x".to_string())), None);
    assert_eq!(Stage::Loading.next(Event::Output(Vec::new())), None);
    assert_eq!(Stage::Running.next(Event::Content("x".to_string())), None);
    assert_eq!(
        Stage::Preparing { task: Task::Add, arguments: Vec::new() }.next(Event::Written),
        None
    );
    assert_eq!(
        Stage::Showing { names: words(&["1.txt"]), shown: 1 }.next(Event::Content("x".to_string())),
        None
    );
}

#[test]
fn each_stage_goes_on_with_its_own_event() {
    assert_eq!(
        Stage::Storing { entry: "x".to_string() }.next(Event::Written),
        Some(finished(&["Added: \"x\""]))
    );
    assert_eq!(
        Stage::Healing { name: "notes".to_string() }.next(Event::Removed),
        Some(finished(&["Removed invalid pls: 'notes'. pls not modify files by yourself."]))
    );
    assert_eq!(
        Stage::Preparing { task: Task::Delete, arguments: words(&["3"]) }.next(Event::Prepared),
        Some(waiting(Stage::Deleting { index: 3 }, Request::ReadDirectory))
    );
    assert_eq!(
        Stage::Deleting { index: 3 }.next(Event::Listing(words(&["1.txt"]))),
        Some(finished(&["Not found: [3]"]))
    );
}
