use handfast::base::bus::Event;
use handfast::base::paths::{
    file_name, join, uid_of_status, DirStep, Environment, Paths, PRIVATE_MODE,
};
use handfast::base::store::{ensure_device_id, sibling_with, stored_flag, temp_sibling};
use handfast::base::supervise::{backoff_delay, delay_text, Ending, Supervisor, MAX_BACKOFF};
use handfast::base::Error;
use handfast::ordered::{TextMap, TextSet};
use handfast::text;

/// The level and text of a log record.
fn record(event: &Event) -> (&str, &str) {
    match event {
        Event::LogRecord { level, msg } => (level.as_str(), msg.as_str()),
        other => panic!("expected a log record, got {other:?}"),
    }
}

#[test]
fn restarts_panicking_task_once_then_succeeds() {
    let mut supervisor = Supervisor::new();
    assert!(supervisor.spawn("panicky").is_some());
    let verdict = supervisor.on_exit("panicky", 0, &Ending::Panicked("boom".into()), 1);
    assert_eq!(verdict.retry, Some((100, 1)));
    assert_eq!(supervisor.restart_count("panicky"), 1);
    let verdict = supervisor.on_exit("panicky", 1, &Ending::Finished, 1);
    assert_eq!(verdict.retry, None);
    assert_eq!(supervisor.restart_count("panicky"), 1);
}

#[test]
fn clean_completion_stops_supervision() {
    let mut supervisor = Supervisor::new();
    let _ = supervisor.spawn("one_shot");
    let verdict = supervisor.on_exit("one_shot", 0, &Ending::Finished, 100);
    assert!(verdict.retry.is_none());
    assert!(verdict.events.is_empty());
    assert_eq!(supervisor.restart_count("one_shot"), 0);
}

#[test]
fn crashes_are_reported_on_the_bus() {
    let mut supervisor = Supervisor::new();
    let _ = supervisor.spawn("crasher");
    let verdict = supervisor.on_exit("crasher", 0, &Ending::Panicked("boom".into()), 1);
    assert_eq!(verdict.events.len(), 2);
    let (level, msg) = record(&verdict.events[0]);
    assert_eq!(level, "error");
    assert!(msg.contains("'crasher'") && msg.contains("panicked"));
    let (level, msg) = record(&verdict.events[1]);
    assert_eq!(level, "warn");
    assert!(msg.contains("restarting 'crasher'"));
    let verdict = supervisor.on_exit("crasher", 1, &Ending::Failed("io".into()), 1);
    assert!(record(&verdict.events[0]).1.contains("failed: io"));
}

#[test]
fn nothing_restarts_after_shutdown() {
    let mut supervisor = Supervisor::new();
    let _ = supervisor.spawn("forever");
    supervisor.shutdown_all();
    let verdict = supervisor.on_exit("forever", 0, &Ending::Failed("x".into()), 1);
    assert!(verdict.retry.is_none());
    assert_eq!(verdict.events.len(), 1);
    assert!(supervisor.spawn("late").is_none());
}

#[test]
fn backoff_doubles_until_the_cap() {
    assert_eq!(backoff_delay(1), 100);
    assert_eq!(backoff_delay(2), 200);
    assert_eq!(backoff_delay(3), 400);
    assert_eq!(backoff_delay(9), 25_600);
    assert_eq!(backoff_delay(10), 30_000);
    assert_eq!(backoff_delay(u32::MAX), MAX_BACKOFF);
    assert_eq!(delay_text(100), "100ms");
}

#[test]
fn healthy_runs_forget_earlier_failures() {
    let mut supervisor = Supervisor::new();
    let _ = supervisor.spawn("worker");
    let verdict = supervisor.on_exit("worker", 8, &Ending::Failed("x".into()), 30_000);
    assert_eq!(verdict.retry, Some((100, 1)));
    let verdict = supervisor.on_exit("worker", 1, &Ending::Failed("x".into()), 0);
    assert_eq!(verdict.retry, Some((200, 2)));
    let verdict = supervisor.on_exit("worker", 8, &Ending::Failed("x".into()), 29_999);
    assert_eq!(verdict.retry, Some((25_600, 9)));
}

fn environment() -> Environment {
    Environment {
        home: Some("/home/u".into()),
        config_home: None,
        data_home: None,
        cache_home: None,
        runtime_dir: None,
        temp_dir: "/tmp".into(),
        uid: Some(1000),
    }
}

#[test]
fn directories_follow_the_environment() {
    let mut env = environment();
    let dirs = Paths::resolve(&env);
    assert_eq!(dirs.config, "/home/u/.config/handfast");
    assert_eq!(dirs.data, "/home/u/.local/share/handfast");
    assert_eq!(dirs.cache, "/home/u/.cache/handfast");
    assert_eq!(dirs.runtime, "/tmp/handfast-1000");
    env.config_home = Some("/c".into());
    env.runtime_dir = Some("/run/user/1000".into());
    let dirs = Paths::resolve(&env);
    assert_eq!(dirs.config, "/c/handfast");
    assert_eq!(dirs.runtime, "/run/user/1000");
    env.home = None;
    env.uid = None;
    env.runtime_dir = None;
    let dirs = Paths::resolve(&env);
    assert_eq!(dirs.data, "/tmp/.local/share/handfast");
    assert_eq!(dirs.runtime, "/tmp/handfast");
}

#[test]
fn directories_are_set_up_with_two_private() {
    let env = Environment {
        config_home: Some(String::new()),
        data_home: Some("/d".into()),
        runtime_dir: Some("/run/user/7".into()),
        ..environment()
    };
    let (dirs, steps) = Paths::init(&env);
    assert_eq!(dirs.config, "/home/u/.config/handfast");
    assert_eq!(dirs.data, "/d/handfast");
    assert_eq!(dirs.cache, "/home/u/.cache/handfast");
    assert_eq!(dirs.runtime, "/run/user/7");
    let create = |dir: &String| DirStep::Create(dir.clone());
    let restrict = |dir: &String| DirStep::Restrict(dir.clone());
    assert_eq!(
        steps,
        vec![
            create(&dirs.config),
            create(&dirs.data),
            create(&dirs.cache),
            create(&dirs.runtime),
            restrict(&dirs.config),
            restrict(&dirs.data),
        ]
    );
    assert_eq!(PRIVATE_MODE, 0o700);
    assert_eq!(Paths::init(&env), (dirs, steps));
}

#[test]
fn effective_user_is_read_from_the_status_file() {
    let status = "Name:\tx\nUid:\t1000\t1001\t1002\t1003\nGid:\t1\n";
    assert_eq!(uid_of_status(status), Some(1001));
    assert_eq!(uid_of_status("Name:\tx\n"), None);
    assert_eq!(uid_of_status("Uid:\t1000\tx\n"), None);
}

#[test]
fn paths_join_and_end_in_names() {
    assert_eq!(join("/a", "b"), "/a/b");
    assert_eq!(join("/a/", "b"), "/a/b");
    assert_eq!(join("/a", "/b"), "/b");
    assert_eq!(file_name("/a/b.txt").as_deref(), Some("b.txt"));
    assert_eq!(file_name("/a/.."), None);
    assert_eq!(file_name("/"), None);
}

#[test]
fn temporary_siblings_are_hidden_and_unique() {
    let first = temp_sibling(Some("out.json"));
    let second = temp_sibling(Some("out.json"));
    assert_ne!(first, second);
    assert!(first.contains("out.json") && first.contains(".tmp-"), "{first}");
    assert!(sibling_with(Some("out.json"), "abc").contains("abc"));
}

#[test]
fn device_ids_are_kept_or_made() {
    let (kept, fresh) = ensure_device_id(Some("abc".into()));
    assert_eq!((kept.as_str(), fresh), ("abc", false));
    let (made, fresh) = ensure_device_id(None);
    assert!(fresh);
    assert_eq!(made.len(), 36);
    for (i, c) in made.chars().enumerate() {
        if [8, 13, 18, 23].contains(&i) {
            assert_eq!(c, '-', "{made}");
        } else {
            assert!(c.is_ascii_digit() || ('a'..='f').contains(&c), "{made}");
        }
    }
    assert_eq!(made.as_bytes()[14], b'4');
    assert!(b"89ab".contains(&made.as_bytes()[19]), "{made}");
    let (other, _) = ensure_device_id(None);
    assert_ne!(made, other);
    assert!(stored_flag(1) && stored_flag(-1) && !stored_flag(0));
}

#[test]
fn errors_say_what_failed() {
    assert_eq!(Error::Other("x".into()).message(), "x");
    assert!(Error::Io("gone".into()).message().contains("gone"));
    assert!(Error::Sqlite("locked".into()).message().contains("locked"));
    assert!(Error::Json("bad".into()).message().contains("bad"));
}

#[test]
fn text_maps_keep_their_keys_in_order() {
    let mut map: TextMap<u8> = TextMap::new();
    assert!(map.insert("b".into(), 1).is_none());
    assert!(map.insert("a".into(), 2).is_none());
    assert_eq!(map.insert("b".into(), 3), Some(1));
    assert_eq!(map.len(), 2);
    assert_eq!(map.item(0).0.as_str(), "a");
    assert_eq!(map.get("b"), Some(&3));
    assert_eq!(map.remove("a"), Some(2));
    assert!(!map.contains_key("a"));
    let mut set = TextSet::new();
    assert!(set.insert("y".into()));
    assert!(set.insert("x".into()));
    assert!(!set.insert("y".into()));
    assert_eq!(set.to_vec(), ["x", "y"]);
}

#[test]
fn texts_are_cut_and_joined() {
    assert_eq!(text::trim(" \t a b\u{00a0}\n"), "a b");
    assert_eq!(text::split_text("a/b//c", &['/']), ["a", "b", "", "c"]);
    assert_eq!(text::split_words(" a  b\tc "), ["a", "b", "c"]);
    assert_eq!(text::join(&vec!["a".into(), "b".into()], ", "), "a, b");
    assert_eq!(text::strip_prefix("file:///x", "file://").as_deref(), Some("/x"));
    assert_eq!(text::strip_prefix("x", "file://"), None);
    assert_eq!(text::decimal_text(u64::MAX as u128), "18446744073709551615");
    assert_eq!(text::signed_text(i64::MIN), "-9223372036854775808");
    assert_eq!(text::parse_unsigned("65536", 65535), None);
    assert_eq!(text::parse_unsigned("+65535", 65535), Some(65535));
    assert_eq!(text::parse_signed("-12"), Some(-12));
    assert_eq!(text::parse_signed("1x"), None);
    assert!(text::contains_text("a://b", "://"));
    assert!(text::is_before("a", "ab") && !text::is_before("b", "ab"));
    assert_eq!(text::to_ascii_lowercase("ÄBc"), "Äbc");
}
