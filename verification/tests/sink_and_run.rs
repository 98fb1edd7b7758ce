use feed_ingest::article::ArticleCandidate;
use feed_ingest::catalog::FeedSource;
use feed_ingest::feed::UtcInstant;
use feed_ingest::run::{Run, RunReport, TaskEnd};
use feed_ingest::sink::MemorySink;
use feed_ingest::task::{Action, Phase};

fn row(url: &str, title: &str) -> ArticleCandidate {
    ArticleCandidate {
        title: title.to_string(),
        authors: "Unknown".to_string(),
        publisher: "Pub".to_string(),
        description: String::new(),
        content: String::new(),
        original_url: url.to_string(),
        tag: "TECH".to_string(),
        image_url: "https://img.example.org/a.jpg".to_string(),
        published_at: UtcInstant { secs: 1, nanos: 0 },
        created_at: UtcInstant { secs: 2, nanos: 0 },
    }
}

fn sources(n: usize) -> Vec<FeedSource> {
    (0..n)
        .map(|i| FeedSource {
            feed_url: format!("https://f{i}.example/rss"),
            category: "TECH".to_string(),
            publisher_name: format!("Feed{i}"),
        })
        .collect()
}

#[test]
fn new_sink_is_empty() {
    let sink = MemorySink::new();
    assert_eq!(sink.len(), 0);
    assert!(sink.rows().is_empty());
    assert!(!sink.contains_url("https://example.org/a"));
}

#[test]
fn insert_many_stores_new_rows_in_order() {
    let mut sink = MemorySink::new();
    let stored = sink.insert_many(vec![row("https://e/1", "one"), row("https://e/2", "two")]);
    assert_eq!(stored, 2);
    assert_eq!(sink.len(), 2);
    assert_eq!(sink.rows()[0].title, "one");
    assert_eq!(sink.rows()[1].title, "two");
    assert!(sink.contains_url("https://e/2"));
    assert!(!sink.contains_url("https://e/3"));
}

#[test]
fn conflicting_row_is_skipped_not_overwritten() {
    let mut sink = MemorySink::new();
    sink.insert_many(vec![row("https://e/1", "first")]);
    let stored = sink.insert_many(vec![row("https://e/1", "second"), row("https://e/2", "other")]);
    assert_eq!(stored, 1);
    assert_eq!(sink.len(), 2);
    assert_eq!(sink.rows()[0].title, "first");
    assert_eq!(sink.rows()[1].title, "other");
}

#[test]
fn duplicate_within_one_batch_is_stored_once() {
    let mut sink = MemorySink::new();
    let stored = sink.insert_many(vec![row("https://e/1", "a"), row("https://e/1", "b")]);
    assert_eq!(stored, 1);
    assert_eq!(sink.rows()[0].title, "a");
}

#[test]
fn inserting_a_batch_twice_changes_nothing_the_second_time() {
    let batch = || vec![row("https://e/1", "a"), row("https://e/2", "b"), row("https://e/3", "c")];
    let mut sink = MemorySink::new();
    assert_eq!(sink.insert_many(batch()), 3);
    assert_eq!(sink.insert_many(batch()), 0);
    assert_eq!(sink.len(), 3);
}

#[test]
fn empty_batch_stores_nothing() {
    let mut sink = MemorySink::new();
    assert_eq!(sink.insert_many(Vec::new()), 0);
    assert_eq!(sink.len(), 0);
}

#[test]
fn keys_are_compared_exactly() {
    let mut sink = MemorySink::new();
    let stored = sink.insert_many(vec![row("https://e/1", "a"), row("https://e/1/", "b"), row("https://E/1", "c")]);
    assert_eq!(stored, 3);
}

#[test]
fn run_starts_one_task_for_each_source() {
    let list = sources(3);
    let (run, tasks) = Run::start(&list);
    assert_eq!(tasks.len(), 3);
    assert!(!run.is_complete());
    assert_eq!(run.report(), None);
    for (i, task) in tasks.iter().enumerate() {
        assert_eq!(task.phase(), Phase::Fetching);
        assert_eq!(task.source().publisher_name, format!("Feed{i}"));
        match task.pending() {
            Action::Fetch { url, .. } => assert_eq!(url, format!("https://f{i}.example/rss")),
            other => panic!("a fetch was expected, not {other:?}"),
        }
    }
}

#[test]
fn run_is_over_when_every_task_has_ended() {
    let (mut run, _tasks) = Run::start(&sources(2));
    run.task_ended(TaskEnd::Finished);
    assert!(!run.is_complete());
    assert_eq!(run.report(), None);
    run.task_ended(TaskEnd::Finished);
    assert!(run.is_complete());
    assert_eq!(run.report(), Some(RunReport { tasks: 2, crashed: 0 }));
}

#[test]
fn crashed_task_does_not_fail_the_run() {
    let (mut run, _tasks) = Run::start(&sources(3));
    run.task_ended(TaskEnd::Crashed);
    run.task_ended(TaskEnd::Finished);
    run.task_ended(TaskEnd::Crashed);
    assert_eq!(run.report(), Some(RunReport { tasks: 3, crashed: 2 }));
}

#[test]
fn run_without_sources_is_over_at_once() {
    let (run, tasks) = Run::start(&Vec::new());
    assert!(tasks.is_empty());
    assert_eq!(run.report(), Some(RunReport { tasks: 0, crashed: 0 }));
}

#[test]
fn joins_beyond_the_number_of_tasks_are_ignored() {
    let (mut run, _tasks) = Run::start(&sources(1));
    run.task_ended(TaskEnd::Finished);
    run.task_ended(TaskEnd::Crashed);
    assert_eq!(run.report(), Some(RunReport { tasks: 1, crashed: 0 }));
}
