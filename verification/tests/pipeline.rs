use better_posthog::client::{ApiKey, Host};
use better_posthog::context::Context;
use better_posthog::events::Event;
use better_posthog::hooks::HookOutcome;
use better_posthog::pipeline::{Action, Pipeline, Skipped};
use better_posthog::wire::Request;
use better_posthog::worker::{Fetched, Task, Worker};
use serde_json::Value;

type Hook = Box<dyn FnMut(Event) -> HookOutcome>;

const METADATA_KEYS: [&str; 8] = [
    "$lib",
    "$lib_version",
    "$lib_version_major",
    "$lib_version_minor",
    "$lib_version_patch",
    "$os",
    "$os_version",
    "$os_arch",
];

fn pipeline_with(hooks: Vec<Hook>) -> Pipeline<Hook> {
    Pipeline {
        api_key: ApiKey::from("phc_test"),
        host: Host::US,
        context: Context::new("better-posthog", "0.1.0", "Ubuntu", "24.04", "x86_64").unwrap(),
        hooks,
    }
}

fn posted(action: Action<u32>) -> Request {
    match action {
        Action::Post(request) => request,
        other => panic!("expected a request, got {:?}", other),
    }
}

fn body_of(request: &Request) -> Value {
    serde_json::from_str(&request.body).unwrap()
}

fn discard_named(name: &'static str) -> Hook {
    Box::new(move |event: Event| {
        if event.event == name {
            HookOutcome::Discard
        } else {
            HookOutcome::Continue(event)
        }
    })
}

fn fault_named(name: &'static str) -> Hook {
    Box::new(move |event: Event| {
        if event.event == name {
            HookOutcome::Fault
        } else {
            HookOutcome::Continue(event)
        }
    })
}

#[test]
fn plain_event_without_hooks_gives_the_single_capture_body() {
    let mut pipeline = pipeline_with(Vec::new());
    let request = posted(pipeline.process(Task::Capture(Event::new("page_view", "user_123"))));
    assert_eq!(request.url, "https://us.i.posthog.com/i/v0/e/");
    let body = body_of(&request);
    let object = body.as_object().unwrap();
    let mut members: Vec<&str> = object.keys().map(|key| key.as_str()).collect();
    members.sort();
    assert_eq!(members, vec!["api_key", "distinct_id", "event", "properties"]);
    assert_eq!(object.get("event"), Some(&Value::from("page_view")));
    assert_eq!(object.get("distinct_id"), Some(&Value::from("user_123")));
    assert_eq!(object.get("api_key"), Some(&Value::from("phc_test")));
    assert!(object.get("timestamp").is_none());
    let properties = object.get("properties").unwrap().as_object().unwrap();
    assert_eq!(properties.len(), 8);
    for key in METADATA_KEYS {
        assert!(properties.contains_key(key), "{} is missing", key);
    }
    assert_eq!(properties.get("$lib"), Some(&Value::from("better-posthog")));
    assert_eq!(properties.get("$lib_version"), Some(&Value::from("0.1.0")));
    assert_eq!(properties.get("$lib_version_major"), Some(&Value::from(0)));
    assert_eq!(properties.get("$lib_version_minor"), Some(&Value::from(1)));
    assert_eq!(properties.get("$lib_version_patch"), Some(&Value::from(0)));
    assert_eq!(properties.get("$os"), Some(&Value::from("Ubuntu")));
    assert_eq!(properties.get("$os_version"), Some(&Value::from("24.04")));
    assert_eq!(properties.get("$os_arch"), Some(&Value::from("x86_64")));
}

#[test]
fn hooks_see_the_enriched_event() {
    let check: Hook = Box::new(|event: Event| {
        if event.properties.contains_key("$lib") && event.properties.len() == 8 {
            HookOutcome::Continue(event)
        } else {
            HookOutcome::Discard
        }
    });
    let mut pipeline = pipeline_with(vec![check]);
    let action: Action<u32> = pipeline.process(Task::Capture(Event::new("e", "u")));
    assert!(matches!(action, Action::Post(_)));
}

#[test]
fn what_a_hook_changes_is_what_is_sent() {
    let stamp: Hook = Box::new(|mut event: Event| {
        event.insert_property("deployment", Value::from("production"));
        event.insert_property("$os", Value::from("redacted"));
        event.distinct_id = "masked".to_string();
        HookOutcome::Continue(event)
    });
    let mut pipeline = pipeline_with(vec![stamp]);
    let request = posted(pipeline.process(Task::Capture(Event::new("e", "user_123"))));
    let body = body_of(&request);
    assert_eq!(body.get("distinct_id"), Some(&Value::from("masked")));
    let properties = body.get("properties").unwrap().as_object().unwrap();
    assert_eq!(properties.len(), 9);
    assert_eq!(properties.get("deployment"), Some(&Value::from("production")));
    assert_eq!(properties.get("$os"), Some(&Value::from("redacted")));
}

#[test]
fn a_discarded_event_is_not_sent() {
    let mut pipeline = pipeline_with(vec![discard_named("secret")]);
    let action: Action<u32> = pipeline.process(Task::Capture(Event::new("secret", "u")));
    assert!(matches!(action, Action::Skip(Skipped::Filtered)));
}

#[test]
fn a_fault_discards_the_event_and_the_next_one_is_processed() {
    let mut pipeline = pipeline_with(vec![fault_named("bad")]);
    let first: Action<u32> = pipeline.process(Task::Capture(Event::new("bad", "u")));
    assert!(matches!(first, Action::Skip(Skipped::Filtered)));
    let second = posted(pipeline.process(Task::Capture(Event::new("good", "u"))));
    assert_eq!(body_of(&second).get("event"), Some(&Value::from("good")));
    assert_eq!(pipeline.hooks.len(), 1);
}

#[test]
fn a_batch_may_shrink() {
    let mut pipeline = pipeline_with(vec![discard_named("drop"), fault_named("bad")]);
    let events = vec![
        Event::new("keep_1", "u1"),
        Event::new("drop", "u2"),
        Event::new("keep_2", "u3"),
        Event::new("bad", "u4"),
        Event::new("keep_3", "u5"),
    ];
    let request = posted(pipeline.process(Task::Batch(events)));
    assert_eq!(request.url, "https://us.i.posthog.com/batch/");
    let body = body_of(&request);
    assert_eq!(body.as_object().unwrap().len(), 2);
    assert_eq!(body.get("api_key"), Some(&Value::from("phc_test")));
    let batch = body.get("batch").unwrap().as_array().unwrap();
    assert_eq!(batch.len(), 3);
    let names: Vec<&str> = batch.iter().map(|e| e.get("event").unwrap().as_str().unwrap()).collect();
    assert_eq!(names, vec!["keep_1", "keep_2", "keep_3"]);
    let ids: Vec<&str> = batch
        .iter()
        .map(|e| e.get("properties").unwrap().get("distinct_id").unwrap().as_str().unwrap())
        .collect();
    assert_eq!(ids, vec!["u1", "u3", "u5"]);
    for element in batch {
        assert!(element.get("distinct_id").is_none());
        assert!(element.get("timestamp").is_none());
        assert_eq!(element.get("properties").unwrap().as_object().unwrap().len(), 9);
    }
}

#[test]
fn a_batch_with_no_survivor_sends_nothing() {
    let mut pipeline = pipeline_with(vec![Box::new(|_event: Event| HookOutcome::Discard)]);
    let events = vec![Event::new("a", "u"), Event::new("b", "u")];
    let action: Action<u32> = pipeline.process(Task::Batch(events));
    assert!(matches!(action, Action::Skip(Skipped::Filtered)));
}

#[test]
fn an_empty_batch_sends_nothing() {
    let mut pipeline = pipeline_with(Vec::new());
    let action: Action<u32> = pipeline.process(Task::Batch(Vec::new()));
    assert!(matches!(action, Action::Skip(Skipped::Filtered)));
}

#[test]
fn a_flush_is_acknowledged_through_its_handle() {
    let mut pipeline = pipeline_with(Vec::new());
    assert!(matches!(pipeline.process(Task::Flush(42u32)), Action::Ack(42)));
}

#[test]
fn the_shutdown_task_stops_the_consumer() {
    let mut pipeline = pipeline_with(Vec::new());
    assert!(matches!(pipeline.process(Task::<u32>::Shutdown), Action::Stop));
}

#[test]
fn filter_enriches_then_runs_the_hooks() {
    let mut pipeline = pipeline_with(vec![discard_named("drop")]);
    let kept = pipeline.filter(Event::new("keep", "u")).unwrap();
    assert_eq!(kept.properties.len(), 8);
    assert!(pipeline.filter(Event::new("drop", "u")).is_none());
    let survivors = pipeline.filter_batch(vec![
        Event::new("drop", "a"),
        Event::new("x", "b"),
        Event::new("y", "c"),
    ]);
    assert_eq!(survivors.len(), 2);
    assert_eq!(survivors[0].event, "x");
    assert_eq!(survivors[1].event, "y");
}

#[test]
fn prepare_capture_and_batch_say_why_nothing_is_sent() {
    let pipeline = pipeline_with(Vec::new());
    assert_eq!(pipeline.prepare_capture(None).unwrap_err(), Skipped::Filtered);
    assert_eq!(pipeline.prepare_batch(Vec::new()).unwrap_err(), Skipped::Filtered);
    let single = pipeline.prepare_capture(Some(Event::new("e", "u"))).unwrap();
    assert_eq!(
        single.body,
        "{\"api_key\":\"phc_test\",\"distinct_id\":\"u\",\"event\":\"e\",\"properties\":{}}"
    );
    let batch = pipeline.prepare_batch(vec![Event::new("e", "u")]).unwrap();
    assert_eq!(
        batch.body,
        "{\"api_key\":\"phc_test\",\"batch\":[{\"event\":\"e\",\"properties\":{\"distinct_id\":\"u\"}}]}"
    );
}

#[test]
fn a_flush_is_acknowledged_after_every_earlier_capture() {
    let mut worker: Worker<u32> = Worker::with_capacity(16);
    let mut pipeline = pipeline_with(vec![discard_named("c")]);
    for name in ["a", "b", "c", "d"] {
        assert!(worker.capture(Event::new(name, "u")));
    }
    assert!(worker.flush(1).is_ok());
    assert!(worker.capture(Event::new("e", "u")));
    let mut transport_log: Vec<String> = Vec::new();
    let mut sent_before_ack: Option<Vec<String>> = None;
    loop {
        match worker.next() {
            Fetched::Work(task) => match pipeline.process(task) {
                Action::Post(request) => {
                    let body = body_of(&request);
                    transport_log.push(body.get("event").unwrap().as_str().unwrap().to_string());
                }
                Action::Ack(ack) => {
                    assert_eq!(ack, 1);
                    sent_before_ack = Some(transport_log.clone());
                }
                Action::Skip(_) => {}
                Action::Stop => break,
            },
            Fetched::Idle => break,
            Fetched::Halt => break,
        }
    }
    assert_eq!(sent_before_ack, Some(vec!["a".to_string(), "b".to_string(), "d".to_string()]));
    assert_eq!(transport_log, vec!["a", "b", "d", "e"]);
}

#[test]
fn shutdown_is_handled_after_the_work_before_it_and_nothing_behind_it_is_sent() {
    let mut worker: Worker<u32> = Worker::with_capacity(16);
    let mut pipeline = pipeline_with(Vec::new());
    worker.capture(Event::new("t1", "u"));
    worker.batch(vec![Event::new("t2", "u"), Event::new("t3", "u")]);
    worker.flush(5).unwrap();
    assert!(worker.shutdown());
    worker.capture(Event::new("u1", "u"));
    worker.flush(6).unwrap();
    let mut log: Vec<String> = Vec::new();
    loop {
        match worker.next() {
            Fetched::Work(task) => match pipeline.process(task) {
                Action::Post(request) => log.push(request.url),
                Action::Ack(ack) => log.push(format!("ack {}", ack)),
                Action::Skip(_) => log.push("skip".to_string()),
                Action::Stop => panic!("the worker keeps the shutdown task to itself"),
            },
            Fetched::Idle => panic!("a draining worker is never idle"),
            Fetched::Halt => break,
        }
    }
    assert_eq!(
        log,
        vec!["https://us.i.posthog.com/i/v0/e/", "https://us.i.posthog.com/batch/", "ack 5"]
    );
    assert!(matches!(worker.next(), Fetched::Halt));
    assert_eq!(worker.len(), 0);
}

#[test]
fn with_capacity_one_only_the_first_capture_reaches_the_transport() {
    let mut worker: Worker<u32> = Worker::with_capacity(1);
    let mut pipeline = pipeline_with(Vec::new());
    worker.capture(Event::new("A", "u"));
    worker.capture(Event::new("B", "u"));
    let mut sent = Vec::new();
    while let Fetched::Work(task) = worker.next() {
        if let Action::Post(request) = pipeline.process(task) {
            sent.push(body_of(&request).get("event").unwrap().as_str().unwrap().to_string());
        }
    }
    assert_eq!(sent, vec!["A"]);
}
