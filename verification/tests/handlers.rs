use cache_server::http::{Body, Method, Response};
use cache_server::routes::cache::{cache_handler, cache_step_at, CacheStage, Event, FileOp, Step};
use cache_server::routes::router::{
    router_handler, router_step_at, EntryEvent, EntryOp, RouterStage, RouterStep,
};

fn text(v: &[u8]) -> String {
    String::from_utf8(v.to_vec()).unwrap()
}

fn reply(step: Step) -> Response {
    match step {
        Step::Reply(r) => r,
        other => panic!("expected a reply, got {:?}", other),
    }
}

fn router_reply(step: RouterStep) -> Response {
    match step {
        RouterStep::Reply(r) => r,
        other => panic!("expected a reply, got {:?}", other),
    }
}

fn assert_text(r: &Response, status: u16, msg: &str) {
    assert_eq!(r.status, status);
    match &r.body {
        Body::Text(t) => assert_eq!(t, msg),
        other => panic!("expected text, got {:?}", other),
    }
}

fn assert_empty(r: &Response, status: u16) {
    assert_eq!(r.status, status);
    assert!(matches!(r.body, Body::Empty));
}

#[test]
fn cache_other_method_not_allowed() {
    let s = cache_handler(Method::Other, "/a/../b");
    let (s, step) = cache_step_at(s, Event::Begin, 0);
    assert!(matches!(s, CacheStage::Finished));
    assert_text(&reply(step), 405, "Unsupported method");
}

#[test]
fn cache_dotdot_forbidden() {
    for m in [Method::Get, Method::Head, Method::Put, Method::Delete] {
        let s = cache_handler(m, "/a/../b");
        let (s, step) = cache_step_at(s, Event::Begin, 0);
        assert!(matches!(s, CacheStage::Finished));
        assert_text(&reply(step), 403, "Invalid path");
    }
}

#[test]
fn cache_get_found_returns_data() {
    let s = cache_handler(Method::Get, "/x/y");
    let (s, step) = cache_step_at(s, Event::Begin, 0);
    match step {
        Step::Run(FileOp::Check(p)) => assert_eq!(text(&p), "cache/x/y"),
        other => panic!("{:?}", other),
    }
    let (s, step) = cache_step_at(s, Event::Checked(true), 0);
    match step {
        Step::Run(FileOp::Read(p)) => assert_eq!(text(&p), "cache/x/y"),
        other => panic!("{:?}", other),
    }
    let (s, step) = cache_step_at(s, Event::Loaded(vec![1, 2, 3]), 0);
    assert!(matches!(s, CacheStage::Finished));
    let r = reply(step);
    assert_eq!(r.status, 200);
    match r.body {
        Body::Data(d) => assert_eq!(d, vec![1, 2, 3]),
        other => panic!("{:?}", other),
    }
}

#[test]
fn cache_get_missing_not_found() {
    let s = cache_handler(Method::Get, "/x/y");
    let (s, _) = cache_step_at(s, Event::Begin, 0);
    let (s, step) = cache_step_at(s, Event::Checked(false), 0);
    assert!(matches!(s, CacheStage::Finished));
    assert_text(&reply(step), 404, "File not found");
}

#[test]
fn cache_head_answers() {
    let s = cache_handler(Method::Head, "/h");
    let (s, _) = cache_step_at(s, Event::Begin, 0);
    let (_, step) = cache_step_at(s, Event::Checked(true), 0);
    assert_empty(&reply(step), 200);
    let s = cache_handler(Method::Head, "/h");
    let (s, _) = cache_step_at(s, Event::Begin, 0);
    let (_, step) = cache_step_at(s, Event::Checked(false), 0);
    assert_text(&reply(step), 404, "File not found");
}

#[test]
fn cache_put_writes_then_renames() {
    let s = cache_handler(Method::Put, "/up/file");
    let (s, step) = cache_step_at(s, Event::Begin, 42);
    match step {
        Step::Run(FileOp::CreateParent(p)) => assert_eq!(text(&p), "cache/up/file"),
        other => panic!("{:?}", other),
    }
    let (s, step) = cache_step_at(s, Event::Done, 1700000000);
    match step {
        Step::Run(FileOp::Write(p)) => assert_eq!(text(&p), "cache/up/file"),
        other => panic!("{:?}", other),
    }
    let (s, step) = cache_step_at(s, Event::Done, 5);
    match step {
        Step::Run(FileOp::Rename(a, b)) => {
            assert_eq!(text(&a), "cache/up/file.1700000000.t");
            assert_eq!(text(&b), "cache/up/file");
        }
        other => panic!("{:?}", other),
    }
    let (s, step) = cache_step_at(s, Event::Done, 5);
    assert!(matches!(s, CacheStage::Finished));
    assert_text(&reply(step), 200, "File written successfully");
}

#[test]
fn cache_delete_existing_and_missing() {
    let s = cache_handler(Method::Delete, "/d");
    let (s, _) = cache_step_at(s, Event::Begin, 0);
    let (s, step) = cache_step_at(s, Event::Checked(true), 0);
    match step {
        Step::Run(FileOp::Remove(p)) => assert_eq!(text(&p), "cache/d"),
        other => panic!("{:?}", other),
    }
    let (_, step) = cache_step_at(s, Event::Done, 0);
    assert_empty(&reply(step), 200);
    let s = cache_handler(Method::Delete, "/d");
    let (s, _) = cache_step_at(s, Event::Begin, 0);
    let (_, step) = cache_step_at(s, Event::Checked(false), 0);
    assert_empty(&reply(step), 200);
}

#[test]
fn router_other_method_not_allowed() {
    let s = router_handler(Method::Other, "/whatever/".to_string(), b"/w".to_vec());
    let (s, step) = router_step_at(s, EntryEvent::Begin, 0);
    assert!(matches!(s, RouterStage::Finished));
    assert_text(&router_reply(step), 405, "Unsupported method");
}

#[test]
fn router_get_reads_stored_file() {
    let s = router_handler(Method::Get, "/img/avatar.png".to_string(), b"/w".to_vec());
    let (s, step) = router_step_at(s, EntryEvent::Begin, 0);
    match step {
        RouterStep::Run(EntryOp::Exist(p)) => assert_eq!(text(&p), "/w/cache/img/av/avatar.png"),
        other => panic!("{:?}", other),
    }
    let (s, step) = router_step_at(s, EntryEvent::Found(true), 0);
    match step {
        RouterStep::Run(EntryOp::Read(p)) => assert_eq!(text(&p), "/w/cache/img/av/avatar.png"),
        other => panic!("{:?}", other),
    }
    let (_, step) = router_step_at(s, EntryEvent::Loaded(Ok(b"png".to_vec())), 0);
    let r = router_reply(step);
    assert_eq!(r.status, 200);
    match r.body {
        Body::Data(d) => assert_eq!(d, b"png".to_vec()),
        other => panic!("{:?}", other),
    }
}

#[test]
fn router_get_read_error_is_500() {
    let s = router_handler(Method::Get, "/abc".to_string(), b"/w".to_vec());
    let (s, _) = router_step_at(s, EntryEvent::Begin, 0);
    let (s, _) = router_step_at(s, EntryEvent::Found(true), 0);
    let (_, step) = router_step_at(s, EntryEvent::Loaded(Err("permission denied".to_string())), 0);
    assert_text(&router_reply(step), 500, "permission denied");
}

#[test]
fn router_get_missing_not_found() {
    let s = router_handler(Method::Get, "/abc".to_string(), b"/w".to_vec());
    let (s, _) = router_step_at(s, EntryEvent::Begin, 0);
    let (_, step) = router_step_at(s, EntryEvent::Found(false), 0);
    assert_text(&router_reply(step), 404, "File not found");
}

#[test]
fn router_head_answers() {
    let s = router_handler(Method::Head, "/abc".to_string(), b"/w".to_vec());
    let (s, _) = router_step_at(s, EntryEvent::Begin, 0);
    let (_, step) = router_step_at(s, EntryEvent::Found(true), 0);
    assert_empty(&router_reply(step), 200);
    let s = router_handler(Method::Head, "/abc".to_string(), b"/w".to_vec());
    let (s, _) = router_step_at(s, EntryEvent::Begin, 0);
    let (_, step) = router_step_at(s, EntryEvent::Found(false), 0);
    assert_text(&router_reply(step), 404, "File not found");
}

#[test]
fn router_put_writes_through_temp_file() {
    let s = router_handler(Method::Put, "/abc".to_string(), b"/w".to_vec());
    let (s, step) = router_step_at(s, EntryEvent::Begin, 99);
    match step {
        RouterStep::Run(EntryOp::Write(p, t)) => {
            assert_eq!(text(&p), "/w/cache/ab/abc");
            assert_eq!(text(&t), "/w/cache/ab/abc.99.t");
        }
        other => panic!("{:?}", other),
    }
    let (_, step) = router_step_at(s, EntryEvent::Stored(true), 99);
    assert_text(&router_reply(step), 200, "Write file successfully");
    let s = router_handler(Method::Put, "/abc".to_string(), b"/w".to_vec());
    let (s, _) = router_step_at(s, EntryEvent::Begin, 0);
    let (_, step) = router_step_at(s, EntryEvent::Stored(false), 0);
    assert_text(&router_reply(step), 500, "Write file failed");
}

#[test]
fn router_delete_answers_ok() {
    let s = router_handler(Method::Delete, "/abc".to_string(), b"/w".to_vec());
    let (s, step) = router_step_at(s, EntryEvent::Begin, 0);
    match step {
        RouterStep::Run(EntryOp::Delete(p)) => assert_eq!(text(&p), "/w/cache/ab/abc"),
        other => panic!("{:?}", other),
    }
    let (s, step) = router_step_at(s, EntryEvent::Removed, 0);
    assert!(matches!(s, RouterStage::Finished));
    assert_empty(&router_reply(step), 200);
}
