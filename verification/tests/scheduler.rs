use noveler::chapter::Chapter;
use noveler::combine::combine_txt;
use noveler::combine::SavedFile;
use noveler::error::NovelError;
use noveler::frontier::process_url_contents;
use noveler::item::WorkItem;
use noveler::scheduler::Dispatch;
use noveler::scheduler::Queued;
use noveler::scheduler::Scheduler;
use noveler::scheduler::WorkerReport;
use noveler::worker::after_fetch;
use noveler::worker::finish_save;
use noveler::worker::process_save_task;
use noveler::worker::WorkerStep;
use regex::Regex;
use std::collections::VecDeque;

type Fetched = Result<(Chapter, Option<String>), NovelError>;

struct FakeNoveler {
    re: Regex,
    host: String,
    num: i32,
}

impl FakeNoveler {
    fn new(host: String) -> Self {
        Self { re: Regex::new(r"text").expect("pattern"), host, num: 1 }
    }

    fn get_chapter_urls_sorted(&self) -> Vec<String> {
        (1..).take(10).map(|n| format!("{}/{}", &self.host, n)).collect()
    }

    fn get_chapter(&self, order: &str) -> Chapter {
        Chapter {
            order: order.to_string(),
            title: format!("title_{order}"),
            text: format!("text_{order}"),
        }
    }

    fn get_next_page(&mut self) -> Option<String> {
        let num = self.num;
        self.num += 1;
        if num > 10 {
            None
        } else {
            Some(format!("{}/next_page/{num}", &self.host))
        }
    }

    fn process_chapter(&self, chapter: Chapter) -> Chapter {
        Chapter { text: self.re.replace_all(&chapter.text, "text_process").to_string(), ..chapter }
    }

    fn process_url(&mut self, order: &str) -> Fetched {
        let chapter = self.get_chapter(order);
        let chapter = self.process_chapter(chapter);
        Ok((chapter, self.get_next_page()))
    }
}

struct Run {
    result: Result<(), NovelError>,
    fetched: Vec<String>,
    saved: Vec<String>,
    pending: Vec<i32>,
    disk: Vec<SavedFile>,
    left_in_queue: usize,
}

fn save(disk: &mut Vec<SavedFile>, name: String, content: String) {
    let content = content.into_bytes();
    match disk.iter_mut().find(|f| f.name == name) {
        Some(file) => file.content = content,
        None => disk.push(SavedFile { name, content }),
    }
}

fn crawl(
    items: Vec<WorkItem>,
    tasks: i32,
    disk: Vec<SavedFile>,
    fetch: &mut dyn FnMut(&WorkItem) -> Fetched,
) -> Run {
    let mut run = Run {
        result: Ok(()),
        fetched: Vec::new(),
        saved: Vec::new(),
        pending: vec![tasks],
        disk,
        left_in_queue: 0,
    };
    let mut queue: VecDeque<Queued> = items.into_iter().map(Queued::Fresh).collect();
    let mut scheduler = Scheduler::new(tasks);
    while scheduler.is_running() {
        let item = queue.pop_front().expect("a pending item is in the queue");
        let report = match scheduler.on_item(item) {
            Dispatch::Duplicate => {
                run.pending.push(scheduler.pending());
                continue;
            }
            Dispatch::Run(item) => {
                run.fetched.push(item.url.clone());
                let fetched = fetch(&item);
                match after_fetch(item, fetched) {
                    WorkerStep::Save { chapter, next_page } => {
                        let task = process_save_task(&chapter, next_page);
                        save(&mut run.disk, task.file_name, task.content);
                        run.saved.push(chapter.order.clone());
                        let (report, continuation) = finish_save(task.continuation, Ok(()));
                        if let Some(next) = continuation {
                            queue.push_back(next);
                        }
                        report
                    }
                    WorkerStep::Retry(again) => {
                        queue.push_back(again);
                        WorkerReport::Requeued
                    }
                    WorkerStep::Abort(e) => WorkerReport::Fatal(e),
                }
            }
        };
        let outcome = scheduler.on_finished(report);
        run.pending.push(scheduler.pending());
        if outcome.is_err() {
            run.result = outcome;
            break;
        }
    }
    run.left_in_queue = queue.len();
    run
}

fn leaf(order: &str, url: &str) -> WorkItem {
    WorkItem { order_key: order.to_string(), url: url.to_string() }
}

fn page(order: &str, next: Option<&str>) -> Fetched {
    Ok((
        Chapter {
            order: order.to_string(),
            title: format!("title {order}"),
            text: format!("body {order}"),
        },
        next.map(|n| n.to_string()),
    ))
}

fn timeout() -> NovelError {
    NovelError::ReqwestError { message: "operation timed out".to_string(), timeout: true }
}

#[test]
fn test_basic_noveler() {
    let url = "http://127.0.0.1:1234".to_string();
    let mut fake = FakeNoveler::new(url.clone());
    let frontier = process_url_contents(fake.get_chapter_urls_sorted(), &Vec::new());
    let run = crawl(frontier.items, frontier.tasks, Vec::new(), &mut |item| {
        fake.process_url(&item.order_key)
    });
    assert_eq!(run.result, Ok(()));

    let exists = |name: &str| run.disk.iter().any(|f| f.name == name);
    assert!(exists("00001.txt"));
    assert!(exists("00001_n.txt"));
    assert!(exists("00002.txt"));
    assert!(exists("00003.txt"));
    assert!(exists("00004.txt"));
    assert!(exists("00005.txt"));
    assert!(exists("00006.txt"));
    assert!(exists("00007.txt"));
    assert!(exists("00008.txt"));
    assert!(exists("00009.txt"));
    assert!(exists("00010.txt"));
    assert_eq!(
        run.disk.iter().find(|f| f.name == "00001.txt").unwrap().content,
        "title_00001\n\ntext_process_00001".as_bytes()
    );

    assert_eq!(
        combine_txt(run.disk),
        r#"title_00001

text_process_00001

title_00001_n

text_process_00001_n

title_00002

text_process_00002

title_00002_n

text_process_00002_n

title_00003

text_process_00003

title_00003_n

text_process_00003_n

title_00004

text_process_00004

title_00004_n

text_process_00004_n

title_00005

text_process_00005

title_00005_n

text_process_00005_n

title_00006

text_process_00006

title_00006_n

text_process_00006_n

title_00007

text_process_00007

title_00007_n

text_process_00007_n

title_00008

text_process_00008

title_00008_n

text_process_00008_n

title_00009

text_process_00009

title_00009_n

text_process_00009_n

title_00010

text_process_00010

title_00010_n

text_process_00010_n"#
            .as_bytes()
    );
}

#[test]
fn a_repeated_url_is_fetched_once_and_the_count_reaches_zero() {
    let items = vec![
        leaf("00001", "http://h/a"),
        leaf("00002", "http://h/b"),
        leaf("00003", "http://h/a"),
        leaf("00004", "http://h/a"),
        leaf("00005", "http://h/b"),
    ];
    let run = crawl(items, 5, Vec::new(), &mut |item| page(&item.order_key, None));
    assert_eq!(run.result, Ok(()));
    assert_eq!(run.fetched, vec!["http://h/a", "http://h/b"]);
    assert_eq!(run.saved, vec!["00001", "00002"]);
    assert_eq!(run.pending, vec![5, 4, 3, 2, 1, 0]);
    assert_eq!(run.left_in_queue, 0);
}

#[test]
fn a_cycle_of_next_pages_ends() {
    let items = vec![leaf("00001", "http://h/a")];
    let run = crawl(items, 1, Vec::new(), &mut |item| {
        let next = if item.url == "http://h/a" { "http://h/b" } else { "http://h/a" };
        page(&item.order_key, Some(next))
    });
    assert_eq!(run.result, Ok(()));
    assert_eq!(run.fetched, vec!["http://h/a", "http://h/b"]);
    assert_eq!(run.saved, vec!["00001", "00001_n"]);
    assert_eq!(*run.pending.last().unwrap(), 0);
}

#[test]
fn the_count_is_what_was_created_less_what_was_saved_or_dropped() {
    let items = vec![leaf("00001", "u1"), leaf("00002", "u2"), leaf("00003", "u1")];
    let mut created = 3;
    let run = crawl(items, 3, Vec::new(), &mut |item| {
        if item.order_key == "00002" {
            created += 1;
            page(&item.order_key, Some("u2b"))
        } else {
            page(&item.order_key, None)
        }
    });
    assert_eq!(run.result, Ok(()));
    assert_eq!(run.pending, vec![3, 2, 2, 1, 0]);
    assert!(run.pending.iter().all(|p| *p >= 0));
    let dropped = 1;
    assert_eq!(created - run.saved.len() as i32 - dropped, 0);
}

#[test]
fn a_fetch_that_times_out_once_is_made_again_and_saved_once() {
    let items = vec![leaf("00001", "http://h/1")];
    let mut calls = 0;
    let run = crawl(items, 1, Vec::new(), &mut |item| {
        calls += 1;
        if calls == 1 {
            Err(timeout())
        } else {
            Ok((
                Chapter { order: item.order_key.clone(), title: "t".to_string(), text: "x".to_string() },
                None,
            ))
        }
    });
    assert_eq!(run.result, Ok(()));
    assert_eq!(run.fetched, vec!["http://h/1", "http://h/1"]);
    assert_eq!(run.saved, vec!["00001"]);
    assert_eq!(
        run.disk,
        vec![SavedFile { name: "00001.txt".to_string(), content: "t\n\nx".as_bytes().to_vec() }]
    );
    assert_eq!(run.pending, vec![1, 1, 0]);
    assert_eq!(run.left_in_queue, 0);
}

#[test]
fn a_timeout_repeats_one_value_of_the_count_and_changes_no_file() {
    let items = vec![leaf("00001", "u1"), leaf("00002", "u2")];
    let without = crawl(items.clone(), 2, Vec::new(), &mut |item| page(&item.order_key, None));
    let mut first = true;
    let with = crawl(items, 2, Vec::new(), &mut |item| {
        if item.order_key == "00001" && first {
            first = false;
            Err(timeout())
        } else {
            page(&item.order_key, None)
        }
    });
    assert_eq!(without.result, Ok(()));
    assert_eq!(with.result, Ok(()));
    assert_eq!(without.pending, vec![2, 1, 0]);
    assert_eq!(with.pending, vec![2, 2, 1, 0]);
    assert_eq!(with.fetched, vec!["u1", "u2", "u1"]);
    assert_eq!(with.saved, vec!["00002", "00001"]);
    let mut a = without.disk;
    let mut b = with.disk;
    a.sort_by(|x, y| x.name.cmp(&y.name));
    b.sort_by(|x, y| x.name.cmp(&y.name));
    assert_eq!(a, b);
    assert_eq!(combine_txt(a), combine_txt(b));
}

#[test]
fn a_retried_item_is_handed_out_though_its_url_is_visited() {
    let mut scheduler = Scheduler::new(1);
    assert_eq!(
        scheduler.on_item(Queued::Fresh(leaf("00001", "u"))),
        Dispatch::Run(leaf("00001", "u"))
    );
    assert!(scheduler.has_visited(&"u".to_string()));
    assert_eq!(scheduler.on_finished(WorkerReport::Requeued), Ok(()));
    assert_eq!(scheduler.pending(), 1);
    assert_eq!(
        scheduler.on_item(Queued::Retry(leaf("00001", "u"))),
        Dispatch::Run(leaf("00001", "u"))
    );
    assert_eq!(scheduler.pending(), 1);
    assert_eq!(scheduler.visited_count(), 1);
    assert_eq!(scheduler.on_item(Queued::Fresh(leaf("00009", "u"))), Dispatch::Duplicate);
    assert_eq!(scheduler.pending(), 0);
}

#[test]
fn a_run_without_timeout_ends_on_the_same_count() {
    let items = vec![leaf("00001", "u1"), leaf("00002", "u2")];
    let run = crawl(items, 2, Vec::new(), &mut |item| page(&item.order_key, None));
    assert_eq!(run.saved, vec!["00001", "00002"]);
    assert_eq!(run.pending, vec![2, 1, 0]);
}

#[test]
fn a_fatal_failure_is_the_result_and_what_was_saved_stays() {
    let urls: Vec<String> = (1..=10).map(|n| format!("http://h/{n}")).collect();
    let frontier = process_url_contents(urls, &Vec::new());
    let run = crawl(frontier.items, frontier.tasks, Vec::new(), &mut |item| {
        if item.order_key == "00010" {
            Err(NovelError::NotFound("href".to_string()))
        } else {
            page(&item.order_key, None)
        }
    });
    assert_eq!(run.result, Err(NovelError::NotFound("href".to_string())));
    assert_eq!(run.saved.len(), 9);
    assert_eq!(run.disk.len(), 9);
    assert_eq!(*run.pending.last().unwrap(), 1);
}

#[test]
fn a_transport_failure_that_is_no_timeout_is_fatal() {
    let error = NovelError::ReqwestError { message: "refused".to_string(), timeout: false };
    let expected = error.clone();
    let run = crawl(vec![leaf("00001", "u1")], 1, Vec::new(), &mut |_| Err(error.clone()));
    assert_eq!(run.result, Err(expected));
    assert!(run.saved.is_empty());
}

#[test]
fn resume_fetches_only_the_leaves_without_a_file() {
    let urls: Vec<String> = (1..=10).map(|n| format!("http://h/{n}")).collect();
    let disk =
        vec![SavedFile { name: "00001.txt".to_string(), content: "kept".as_bytes().to_vec() }];
    let existing: Vec<String> = disk.iter().map(|f| f.name.clone()).collect();
    let frontier = process_url_contents(urls, &existing);
    let run = crawl(frontier.items, frontier.tasks, disk, &mut |item| page(&item.order_key, None));
    assert_eq!(run.result, Ok(()));
    assert_eq!(run.fetched.len(), 9);
    assert!(!run.fetched.contains(&"http://h/1".to_string()));
    assert_eq!(run.disk.len(), 10);
    assert_eq!(run.disk[0].content, "kept".as_bytes());
}

#[test]
fn three_leaves_and_one_continuation_end_to_end() {
    let urls = vec!["http://h/1".to_string(), "http://h/2".to_string(), "http://h/3".to_string()];
    let frontier = process_url_contents(urls, &Vec::new());
    assert_eq!(frontier.tasks, 3);
    let run = crawl(frontier.items, frontier.tasks, Vec::new(), &mut |item| {
        let next = if item.order_key == "00002" { Some("http://h/2b") } else { None };
        Ok((
            Chapter {
                order: item.order_key.clone(),
                title: format!("t{}", item.order_key),
                text: format!("b{}", item.order_key),
            },
            next.map(|n| n.to_string()),
        ))
    });
    assert_eq!(run.result, Ok(()));
    let mut names: Vec<String> = run.disk.iter().map(|f| f.name.clone()).collect();
    names.sort();
    assert_eq!(names, vec!["00001.txt", "00002.txt", "00002_n.txt", "00003.txt"]);
    assert_eq!(
        combine_txt(run.disk),
        "t00001\n\nb00001\n\nt00002\n\nb00002\n\nt00002_n\n\nb00002_n\n\nt00003\n\nb00003".as_bytes()
    );
    assert_eq!(run.pending, vec![3, 2, 2, 1, 0]);
}

#[test]
fn a_new_scheduler_counts_the_first_batch() {
    let scheduler = Scheduler::new(0);
    assert!(!scheduler.is_running());
    assert_eq!(scheduler.pending(), 0);
    let scheduler = Scheduler::new(3);
    assert!(scheduler.is_running());
    assert_eq!(scheduler.pending(), 3);
    assert_eq!(scheduler.visited_count(), 0);
    assert!(!scheduler.has_visited(&"u".to_string()));
}

#[test]
fn the_scheduler_steps_one_event_at_a_time() {
    let mut scheduler = Scheduler::new(2);
    let first = scheduler.on_item(Queued::Fresh(leaf("00001", "u")));
    assert_eq!(first, Dispatch::Run(leaf("00001", "u")));
    assert_eq!(scheduler.pending(), 2);
    assert!(scheduler.has_visited(&"u".to_string()));
    assert_eq!(scheduler.visited_count(), 1);
    assert_eq!(scheduler.on_item(Queued::Fresh(leaf("00002", "u"))), Dispatch::Duplicate);
    assert_eq!(scheduler.pending(), 1);
    assert_eq!(scheduler.visited_count(), 1);
    assert_eq!(scheduler.on_finished(WorkerReport::SavedAndRequeued), Ok(()));
    assert_eq!(scheduler.pending(), 1);
    assert_eq!(scheduler.on_finished(WorkerReport::Requeued), Ok(()));
    assert_eq!(scheduler.pending(), 1);
    let fatal = NovelError::StdIOError("disk full".to_string());
    assert_eq!(scheduler.on_finished(WorkerReport::Fatal(fatal.clone())), Err(fatal));
    assert_eq!(scheduler.pending(), 1);
    assert_eq!(scheduler.on_finished(WorkerReport::Saved), Ok(()));
    assert_eq!(scheduler.pending(), 0);
    assert!(!scheduler.is_running());
}

#[test]
fn a_failed_write_is_fatal_and_enqueues_nothing() {
    let error = NovelError::StdIOError("denied".to_string());
    let continuation = Some(leaf("00001_n", "u"));
    let (report, next) = finish_save(continuation, Err(error.clone()));
    let _: &Option<Queued> = &next;
    assert_eq!(report, WorkerReport::Fatal(error));
    assert_eq!(next, None);
}

#[test]
fn after_fetch_tells_timeouts_from_other_failures() {
    let item = leaf("00001", "u");
    assert_eq!(
        after_fetch(item.clone(), Err(timeout())),
        WorkerStep::Retry(Queued::Retry(item.clone()))
    );
    let parse = NovelError::ParseError("empty host".to_string());
    assert_eq!(after_fetch(item.clone(), Err(parse.clone())), WorkerStep::Abort(parse));
    let chapter =
        Chapter { order: "00001".to_string(), title: "t".to_string(), text: "b".to_string() };
    assert_eq!(
        after_fetch(item, Ok((chapter.clone(), None))),
        WorkerStep::Save { chapter, next_page: None }
    );
}

#[test]
fn error_messages() {
    assert_eq!(NovelError::NotFound("href".to_string()).to_string(), "href can not be found");
    assert_eq!(NovelError::ParseError("x".to_string()).to_string(), "parse fail x");
    assert_eq!(NovelError::CannotBeABase("u".to_string()).to_string(), "u can not be a base");
    assert_eq!(timeout().to_string(), "reqwest fail operation timed out");
    assert_eq!(NovelError::StdIOError("e".to_string()).to_string(), "std io fail e");
    assert_eq!(NovelError::VisdomError("e".to_string()).to_string(), "visdom fail e");
    assert_eq!(NovelError::AhoCorasickError("e".to_string()).to_string(), "AhoCorasick fail e");
    assert_eq!(NovelError::RegexError("e".to_string()).to_string(), "Regex fail e");
    assert!(timeout().is_timeout());
    assert!(!NovelError::StdIOError("e".to_string()).is_timeout());
    assert!(!NovelError::ReqwestError { message: "m".to_string(), timeout: false }.is_timeout());
}
