use cache_server::http::{Body, Method, Response};
use cache_server::routes::cache::{cache_handler, cache_step_at, get_file_path, Event, FileOp, Step};
use cache_server::routes::cache_local::{gen_cache_path, temp_path};
use cache_server::routes::router::{router_handler, router_step_at, EntryEvent, EntryOp, RouterStep};
use std::collections::HashMap;

type Store = HashMap<Vec<u8>, Vec<u8>>;

/// Runs a request of the `cache` handler against an in-memory store; `None`
/// when a file operation fails. Also counts the steps.
fn run_cache(m: Method, path: &str, st: &mut Store, body: &[u8], now: i64) -> (Option<Response>, usize) {
    let mut stage = cache_handler(m, path);
    let mut event = Event::Begin;
    let mut steps = 0;
    loop {
        let (next, step) = cache_step_at(stage, event, now);
        steps += 1;
        stage = next;
        match step {
            Step::Reply(r) => return (Some(r), steps),
            Step::Run(op) => {
                event = match op {
                    FileOp::Check(p) => Event::Checked(st.contains_key(&p)),
                    FileOp::Read(p) => match st.get(&p) {
                        Some(d) => Event::Loaded(d.clone()),
                        None => return (None, steps),
                    },
                    FileOp::CreateParent(_) => Event::Done,
                    FileOp::Write(p) => {
                        st.insert(p, body.to_vec());
                        Event::Done
                    }
                    FileOp::Rename(a, b) => match st.remove(&a) {
                        Some(d) => {
                            st.insert(b, d);
                            Event::Done
                        }
                        None => return (None, steps),
                    },
                    FileOp::Remove(p) => match st.remove(&p) {
                        Some(_) => Event::Done,
                        None => return (None, steps),
                    },
                }
            }
        }
    }
}

/// Runs a request of the router handler against an in-memory store.
fn run_router(m: Method, path: &str, st: &mut Store, body: &[u8], now: i64) -> (Response, usize) {
    let mut stage = router_handler(m, path.to_string(), b"/w".to_vec());
    let mut event = EntryEvent::Begin;
    let mut steps = 0;
    loop {
        let (next, step) = router_step_at(stage, event, now);
        steps += 1;
        stage = next;
        match step {
            RouterStep::Reply(r) => return (r, steps),
            RouterStep::Run(op) => {
                event = match op {
                    EntryOp::Exist(p) => EntryEvent::Found(st.contains_key(&p)),
                    EntryOp::Read(p) => match st.get(&p) {
                        Some(d) => EntryEvent::Loaded(Ok(d.clone())),
                        None => EntryEvent::Loaded(Err("missing".to_string())),
                    },
                    EntryOp::Write(p, t) => {
                        st.insert(t.clone(), body.to_vec());
                        let d = st.remove(&t).unwrap();
                        st.insert(p, d);
                        EntryEvent::Stored(true)
                    }
                    EntryOp::Delete(p) => {
                        st.remove(&p);
                        EntryEvent::Removed
                    }
                }
            }
        }
    }
}

fn data(r: &Response) -> Vec<u8> {
    assert_eq!(r.status, 200);
    match &r.body {
        Body::Data(d) => d.clone(),
        other => panic!("{:?}", other),
    }
}

fn is_text(r: &Response, status: u16, msg: &str) -> bool {
    r.status == status && matches!(&r.body, Body::Text(t) if t == msg)
}

#[test]
fn router_get_after_put_returns_body() {
    let mut st = Store::new();
    let (r, _) = run_router(Method::Put, "/p/q/file.bin", &mut st, b"hello", 10);
    assert!(is_text(&r, 200, "Write file successfully"));
    let (r, _) = run_router(Method::Get, "/p/q/file.bin", &mut st, b"", 11);
    assert_eq!(data(&r), b"hello".to_vec());
    let (r, _) = run_router(Method::Head, "/p/q/file.bin", &mut st, b"", 12);
    assert_eq!(r.status, 200);
    let (_, _) = run_router(Method::Put, "/p/q/file.bin", &mut st, b"again", 13);
    let (r, _) = run_router(Method::Get, "/p/q/file.bin", &mut st, b"", 14);
    assert_eq!(data(&r), b"again".to_vec());
    // the temporary files are gone
    assert_eq!(st.len(), 1);
}

#[test]
fn router_gone_after_delete() {
    let mut st = Store::new();
    run_router(Method::Put, "/k", &mut st, b"x", 1);
    let (r, _) = run_router(Method::Delete, "/k", &mut st, b"", 2);
    assert_eq!(r.status, 200);
    let (r, _) = run_router(Method::Get, "/k", &mut st, b"", 3);
    assert!(is_text(&r, 404, "File not found"));
    let (r, _) = run_router(Method::Head, "/k", &mut st, b"", 3);
    assert!(is_text(&r, 404, "File not found"));
}

#[test]
fn router_request_is_isolated() {
    let mut st = Store::new();
    st.insert(b"/w/cache/other/ot/other".to_vec(), b"keep".to_vec());
    run_router(Method::Put, "/mine/abc", &mut st, b"new", 5);
    run_router(Method::Delete, "/mine/abc", &mut st, b"", 6);
    assert_eq!(st.get(&b"/w/cache/other/ot/other".to_vec()), Some(&b"keep".to_vec()));
    assert_eq!(st.len(), 1);
}

#[test]
fn router_answers_within_rank() {
    for m in [Method::Get, Method::Head, Method::Put, Method::Delete, Method::Other] {
        let mut st = Store::new();
        st.insert(gen_cache_path("/abc", b"/w").unwrap(), b"v".to_vec());
        let (_, steps) = run_router(m, "/abc", &mut st, b"b", 1);
        assert!(steps <= 4);
    }
}

#[test]
fn cache_put_stores_body_but_is_not_answered() {
    let mut st = Store::new();
    let (r, _) = run_cache(Method::Put, "/a/b", &mut st, b"body", 1700000000);
    assert!(r.is_none());
    assert_eq!(st.get(&b"cache/a/b".to_vec()), Some(&b"body".to_vec()));
    let (r, _) = run_cache(Method::Get, "/a/b", &mut st, b"", 1700000001);
    assert_eq!(data(&r.unwrap()), b"body".to_vec());
    let (r, _) = run_cache(Method::Head, "/a/b", &mut st, b"", 1700000001);
    assert_eq!(r.unwrap().status, 200);
}

#[test]
fn cache_put_with_existing_temp_is_answered_with_temp_contents() {
    let mut st = Store::new();
    st.insert(temp_path(b"cache/a/b", 7), b"stale".to_vec());
    let (r, _) = run_cache(Method::Put, "/a/b", &mut st, b"body", 7);
    assert!(is_text(&r.unwrap(), 200, "File written successfully"));
    assert_eq!(st.get(&b"cache/a/b".to_vec()), Some(&b"stale".to_vec()));
}

#[test]
fn cache_gone_after_delete() {
    let mut st = Store::new();
    st.insert(b"cache/d".to_vec(), b"x".to_vec());
    let (r, _) = run_cache(Method::Delete, "/d", &mut st, b"", 1);
    assert_eq!(r.unwrap().status, 200);
    let (r, _) = run_cache(Method::Get, "/d", &mut st, b"", 1);
    assert!(is_text(&r.unwrap(), 404, "File not found"));
    let (r, _) = run_cache(Method::Delete, "/d", &mut st, b"", 1);
    assert_eq!(r.unwrap().status, 200);
}

#[test]
fn cache_request_is_isolated() {
    let mut st = Store::new();
    st.insert(b"cache/keep".to_vec(), b"k".to_vec());
    run_cache(Method::Put, "/mine", &mut st, b"m", 3);
    run_cache(Method::Delete, "/mine", &mut st, b"", 3);
    assert_eq!(st.get(&b"cache/keep".to_vec()), Some(&b"k".to_vec()));
}

#[test]
fn cache_answers_within_rank() {
    for m in [Method::Get, Method::Head, Method::Put, Method::Delete, Method::Other] {
        let mut st = Store::new();
        st.insert(b"cache/x".to_vec(), b"v".to_vec());
        st.insert(temp_path(b"cache/x", 1), b"t".to_vec());
        let (_, steps) = run_cache(m, "/x", &mut st, b"b", 1);
        assert!(steps <= 5);
    }
}

#[test]
fn file_paths_are_confined() {
    for p in ["/a", "//b/c", "x/./y", "", "/.hidden"] {
        let f = get_file_path(p).unwrap();
        assert!(f.starts_with(b"cache/"));
        assert!(!f.windows(2).any(|w| w == b".."));
    }
}

#[test]
fn stored_paths_have_plain_components() {
    for k in ["/img/avatar.png", "a//b/./cde", "", ".", "ab", "/x/yz", "éa"] {
        let f = gen_cache_path(k, b"/w").unwrap();
        assert!(f.starts_with(b"/w/"));
        for c in f[3..].split(|b| *b == b'/') {
            assert!(!c.is_empty());
            assert!(c != b".");
            assert!(!c.windows(2).any(|w| w == b".."));
        }
    }
}

#[test]
fn temp_file_is_sibling() {
    let t = temp_path(b"cache/a/bc/file", 1234);
    assert!(t.starts_with(b"cache/a/bc/file"));
    assert!(t.len() > b"cache/a/bc/file".len());
    assert!(!t[b"cache/a/bc/file".len()..].contains(&b'/'));
}
