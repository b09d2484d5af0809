use hevc_watch::watcher::{watch_step, FsEvent, WatchEventKind, WatchReceived, WatchStep};

fn event(kind: WatchEventKind, paths: &[&str]) -> WatchReceived {
    WatchReceived::Event(FsEvent { kind, paths: paths.iter().map(|p| String::from(*p)).collect() })
}

#[test]
fn close_after_write_yields_paths() {
    match watch_step(false, event(WatchEventKind::CloseWrite, &["a/b.mkv", "c.mkv"])) {
        WatchStep::Evaluate(ps) => assert_eq!(ps, vec![String::from("a/b.mkv"), String::from("c.mkv")]),
        _ => panic!("expected paths"),
    }
}

#[test]
fn other_events_are_ignored() {
    assert!(matches!(watch_step(false, event(WatchEventKind::Other, &["a/b.mkv"])), WatchStep::Wait));
    assert!(matches!(watch_step(false, WatchReceived::Error), WatchStep::Wait));
    assert!(matches!(watch_step(false, WatchReceived::TimedOut), WatchStep::Wait));
    assert!(matches!(watch_step(false, WatchReceived::Disconnected), WatchStep::Exit));
}

#[test]
fn stop_ends_watcher() {
    assert!(matches!(watch_step(true, event(WatchEventKind::CloseWrite, &["a.mkv"])), WatchStep::Exit));
    assert!(matches!(watch_step(true, WatchReceived::TimedOut), WatchStep::Exit));
}
