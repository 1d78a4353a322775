//! The handler that serves every path through the local cache entries of
//! `cache_local`: `GET` reads the stored file, `HEAD` tells whether it is
//! there, `PUT` stores the request body through a temporary file, `DELETE`
//! removes the file.
//!
//! As in `cache`, a request is a sequence of steps: `router_handler` starts
//! it, and each `router_step_at` takes what the last operation on the cache
//! entry gave, and the clock, and says what comes next. The clock names the
//! temporary file of a `PUT`.

use vstd::prelude::*;
use crate::http::{
    data_ok, empty_ok, ok_data, ok_empty, text_reply, text_response, BodyView, Method, Response,
    ResponseView,
};
use crate::routes::cache_local::{
    cache_file_path, str_bytes, temp_name, temp_path, valid_cache_key, LocalCache,
};

verus! {

/// An operation on the stored file of a cache entry.
#[derive(Debug)]
pub enum EntryOp {
    /// Whether the file exists and is a regular file; answered with
    /// `EntryEvent::Found`.
    Exist(Vec<u8>),
    /// Read the file; answered with `EntryEvent::Loaded`.
    Read(Vec<u8>),
    /// Write the request body to the temporary file (the second path), then
    /// rename it to the file (the first path); answered with
    /// `EntryEvent::Stored`.
    Write(Vec<u8>, Vec<u8>),
    /// Remove the file if it exists and is a regular file; answered with
    /// `EntryEvent::Removed`. A failure ends the request.
    Delete(Vec<u8>),
}

/// What an entry operation holds.
pub enum EntryOpView {
    Exist(Seq<u8>),
    Read(Seq<u8>),
    Write(Seq<u8>, Seq<u8>),
    Delete(Seq<u8>),
}

impl View for EntryOp {
    type V = EntryOpView;

    open spec fn view(&self) -> EntryOpView {
        match self {
            EntryOp::Exist(p) => EntryOpView::Exist(p@),
            EntryOp::Read(p) => EntryOpView::Read(p@),
            EntryOp::Write(p, t) => EntryOpView::Write(p@, t@),
            EntryOp::Delete(p) => EntryOpView::Delete(p@),
        }
    }
}

/// What the handler does next: an operation on the entry, or the answer.
#[derive(Debug)]
pub enum RouterStep {
    Run(EntryOp),
    Reply(Response),
}

/// What a router step holds.
pub enum RouterStepView {
    Run(EntryOpView),
    Reply(ResponseView),
}

impl View for RouterStep {
    type V = RouterStepView;

    open spec fn view(&self) -> RouterStepView {
        match self {
            RouterStep::Run(op) => RouterStepView::Run(op@),
            RouterStep::Reply(r) => RouterStepView::Reply(r@),
        }
    }
}

/// What the last entry operation gave.
#[derive(Debug)]
pub enum EntryEvent {
    /// Nothing yet: the first step of a request.
    Begin,
    /// The answer of `EntryOp::Exist`.
    Found(bool),
    /// The contents read, or the message of the error that stopped the read.
    Loaded(Result<Vec<u8>, String>),
    /// Whether the write succeeded.
    Stored(bool),
    /// The file is gone.
    Removed,
}

/// What an entry event holds.
pub enum EntryEventView {
    Begin,
    Found(bool),
    Loaded(Result<Seq<u8>, Seq<char>>),
    Stored(bool),
    Removed,
}

impl View for EntryEvent {
    type V = EntryEventView;

    open spec fn view(&self) -> EntryEventView {
        match self {
            EntryEvent::Begin => EntryEventView::Begin,
            EntryEvent::Found(b) => EntryEventView::Found(*b),
            EntryEvent::Loaded(r) => EntryEventView::Loaded(
                match r {
                    Ok(d) => Ok(d@),
                    Err(m) => Err(m@),
                },
            ),
            EntryEvent::Stored(b) => EntryEventView::Stored(*b),
            EntryEvent::Removed => EntryEventView::Removed,
        }
    }
}

/// Where a request stands.
#[derive(Debug)]
pub enum RouterStage {
    /// Not started: the method, the request path, and the working
    /// directory the cache lies in.
    Start(Method, String, Vec<u8>),
    /// `GET`: waiting to learn whether the stored file is there.
    GetExisting(Vec<u8>),
    /// `GET`: waiting for its contents.
    GetReading,
    /// `HEAD`: waiting to learn whether the stored file is there.
    HeadExisting,
    /// `PUT`: waiting for the write.
    PutWriting,
    /// `DELETE`: waiting for the removal.
    DeleteRemoving,
    /// Answered.
    Finished,
}

/// What a router stage holds.
pub enum RouterStageView {
    Start(Method, Seq<char>, Seq<u8>),
    GetExisting(Seq<u8>),
    GetReading,
    HeadExisting,
    PutWriting,
    DeleteRemoving,
    Finished,
}

impl View for RouterStage {
    type V = RouterStageView;

    open spec fn view(&self) -> RouterStageView {
        match self {
            RouterStage::Start(m, p, d) => RouterStageView::Start(*m, p@, d@),
            RouterStage::GetExisting(f) => RouterStageView::GetExisting(f@),
            RouterStage::GetReading => RouterStageView::GetReading,
            RouterStage::HeadExisting => RouterStageView::HeadExisting,
            RouterStage::PutWriting => RouterStageView::PutWriting,
            RouterStage::DeleteRemoving => RouterStageView::DeleteRemoving,
            RouterStage::Finished => RouterStageView::Finished,
        }
    }
}

/// Whether a stage waits for this event.
pub open spec fn router_awaits(s: RouterStageView, e: EntryEventView) -> bool {
    match s {
        RouterStageView::Start(_, _, _) => e is Begin,
        RouterStageView::GetExisting(_) => e is Found,
        RouterStageView::HeadExisting => e is Found,
        RouterStageView::GetReading => e is Loaded,
        RouterStageView::PutWriting => e is Stored,
        RouterStageView::DeleteRemoving => e is Removed,
        RouterStageView::Finished => false,
    }
}

/// The request can be started: a request with one of the four handled
/// methods names a storable key (else creating its cache entry fails).
pub open spec fn router_startable(s: RouterStageView) -> bool {
    match s {
        RouterStageView::Start(method, path, _) => method != Method::Other ==> valid_cache_key(
            str_bytes(path),
        ),
        _ => true,
    }
}

/// Where the cache entry of a request path stores its file, when the
/// working directory is `dir`.
pub open spec fn entry_file(path: Seq<char>, dir: Seq<u8>) -> Seq<u8> {
    cache_file_path(dir, str_bytes(path))->Some_0
}

/// The next stage and step of a request, for an event the stage waits for;
/// `now` is the clock in whole seconds, read when a `PUT` starts.
pub open spec fn router_next(s: RouterStageView, e: EntryEventView, now: int) -> (
    RouterStageView,
    RouterStepView,
) {
    match s {
        RouterStageView::Start(method, path, dir) => {
            let f = entry_file(path, dir);
            match method {
                Method::Get => (
                    RouterStageView::GetExisting(f),
                    RouterStepView::Run(EntryOpView::Exist(f)),
                ),
                Method::Head => (
                    RouterStageView::HeadExisting,
                    RouterStepView::Run(EntryOpView::Exist(f)),
                ),
                Method::Put => (
                    RouterStageView::PutWriting,
                    RouterStepView::Run(EntryOpView::Write(f, temp_name(f, now))),
                ),
                Method::Delete => (
                    RouterStageView::DeleteRemoving,
                    RouterStepView::Run(EntryOpView::Delete(f)),
                ),
                Method::Other => (
                    RouterStageView::Finished,
                    RouterStepView::Reply(text_reply(405, "Unsupported method"@)),
                ),
            }
        },
        RouterStageView::GetExisting(f) => if e == EntryEventView::Found(true) {
            (RouterStageView::GetReading, RouterStepView::Run(EntryOpView::Read(f)))
        } else {
            (RouterStageView::Finished, RouterStepView::Reply(text_reply(404, "File not found"@)))
        },
        RouterStageView::GetReading => match e {
            EntryEventView::Loaded(Ok(d)) => (
                RouterStageView::Finished,
                RouterStepView::Reply(ok_data(d)),
            ),
            EntryEventView::Loaded(Err(m)) => (
                RouterStageView::Finished,
                RouterStepView::Reply(text_reply(500, m)),
            ),
            _ => (RouterStageView::Finished, RouterStepView::Reply(ok_empty())),
        },
        RouterStageView::HeadExisting => if e == EntryEventView::Found(true) {
            (RouterStageView::Finished, RouterStepView::Reply(ok_empty()))
        } else {
            (RouterStageView::Finished, RouterStepView::Reply(text_reply(404, "File not found"@)))
        },
        RouterStageView::PutWriting => if e == EntryEventView::Stored(true) {
            (
                RouterStageView::Finished,
                RouterStepView::Reply(text_reply(200, "Write file successfully"@)),
            )
        } else {
            (
                RouterStageView::Finished,
                RouterStepView::Reply(text_reply(500, "Write file failed"@)),
            )
        },
        RouterStageView::DeleteRemoving => (
            RouterStageView::Finished,
            RouterStepView::Reply(ok_empty()),
        ),
        RouterStageView::Finished => (RouterStageView::Finished, RouterStepView::Reply(ok_empty())),
    }
}

/// `p` is the file `f` or one of its temporary files.
pub open spec fn names_entry_file(p: Seq<u8>, f: Seq<u8>) -> bool {
    p == f || exists|ts: int| p == temp_name(f, ts)
}

/// Every file a stage stands for is `f`: the stored file of the request's
/// key, or the file it remembers.
pub open spec fn router_stage_on(s: RouterStageView, f: Seq<u8>) -> bool {
    match s {
        RouterStageView::Start(m, path, dir) => m == Method::Other || entry_file(path, dir) == f,
        RouterStageView::GetExisting(p) => p == f,
        _ => true,
    }
}

/// Every file an entry operation names is `f` or a temporary file of `f`.
pub open spec fn entry_op_on(op: EntryOpView, f: Seq<u8>) -> bool {
    match op {
        EntryOpView::Exist(p) => p == f,
        EntryOpView::Read(p) => p == f,
        EntryOpView::Write(p, t) => p == f && names_entry_file(t, f),
        EntryOpView::Delete(p) => p == f,
    }
}

/// A request touches only the stored file of its key: from a stage that
/// stands for `f`, every step names only `f` or a temporary file of it, and
/// so does the next stage.
pub proof fn law_router_touches_own_file(s: RouterStageView, e: EntryEventView, now: int, f: Seq<u8>)
    requires
        router_stage_on(s, f),
        router_awaits(s, e),
    ensures
        router_stage_on(router_next(s, e, now).0, f),
        router_next(s, e, now).1 matches RouterStepView::Run(op) ==> entry_op_on(op, f),
{
    if let RouterStageView::Start(m, path, dir) = s {
        if m == Method::Put {
            assert(names_entry_file(temp_name(f, now), f));
        }
    }
}

/// How many steps a stage is at most away from the answer.
pub open spec fn router_rank(s: RouterStageView) -> nat {
    match s {
        RouterStageView::Start(_, _, _) => 3,
        RouterStageView::GetExisting(_) => 2,
        RouterStageView::GetReading => 1,
        RouterStageView::HeadExisting => 1,
        RouterStageView::PutWriting => 1,
        RouterStageView::DeleteRemoving => 1,
        RouterStageView::Finished => 0,
    }
}

/// Every request is answered, exactly once: each step brings the request
/// closer to its answer, and a step is the answer exactly when it finishes
/// the request.
pub proof fn law_router_answers_once(s: RouterStageView, e: EntryEventView, now: int)
    requires
        router_awaits(s, e),
    ensures
        router_rank(router_next(s, e, now).0) < router_rank(s),
        (router_next(s, e, now).0 is Finished) <==> (router_next(s, e, now).1 is Reply),
{
}

/// A request whose method is none of `GET`, `HEAD`, `PUT`, `DELETE` is
/// answered `405 Unsupported method` in its first step, whatever its path
/// and working directory: it makes no cache entry and runs no operation.
pub proof fn law_router_other_method_refused(path: Seq<char>, dir: Seq<u8>, now: int)
    ensures
        router_next(RouterStageView::Start(Method::Other, path, dir), EntryEventView::Begin, now)
            == (
            RouterStageView::Finished,
            RouterStepView::Reply(ResponseView { status: 405, body: BodyView::Text("Unsupported method"@) }),
        ),
{
}

/// A request whose method is none of `GET`, `HEAD`, `PUT`, `DELETE` leaves
/// every file of the store as it was and is answered `405 Unsupported
/// method`, whatever its path.
pub proof fn law_router_other_method_touches_nothing(
    path: Seq<char>,
    dir: Seq<u8>,
    st: Map<Seq<u8>, Seq<u8>>,
    body: Seq<u8>,
    now: int,
)
    ensures
        router_run(RouterStageView::Start(Method::Other, path, dir), EntryEventView::Begin, st, body, now)
            == (st, ResponseView { status: 405, body: BodyView::Text("Unsupported method"@) }),
{
    law_router_other_method_refused(path, dir, now);
    reveal_with_fuel(router_run, 2);
}

/// Of an entry whose file the store does not hold, a `GET` and a `HEAD`
/// answer `404 File not found`; of one it holds, a `GET` answers `200` with
/// the contents and a `HEAD` `200` with no body. A read that fails is
/// answered `500` with the error's message, a write that fails `500 Write
/// file failed`.
pub proof fn law_router_reads(
    path: Seq<char>,
    dir: Seq<u8>,
    f: Seq<u8>,
    now: int,
    found: bool,
    msg: Seq<char>,
    data: Seq<u8>,
)
    requires
        valid_cache_key(str_bytes(path)),
        f == entry_file(path, dir),
    ensures
        router_next(RouterStageView::Start(Method::Get, path, dir), EntryEventView::Begin, now)
            == (RouterStageView::GetExisting(f), RouterStepView::Run(EntryOpView::Exist(f))),
        router_next(RouterStageView::GetExisting(f), EntryEventView::Found(false), now) == (
            RouterStageView::Finished,
            RouterStepView::Reply(ResponseView { status: 404, body: BodyView::Text("File not found"@) }),
        ),
        router_next(RouterStageView::GetExisting(f), EntryEventView::Found(true), now) == (
            RouterStageView::GetReading,
            RouterStepView::Run(EntryOpView::Read(f)),
        ),
        router_next(RouterStageView::GetReading, EntryEventView::Loaded(Ok(data)), now) == (
            RouterStageView::Finished,
            RouterStepView::Reply(ResponseView { status: 200, body: BodyView::Data(data) }),
        ),
        router_next(RouterStageView::GetReading, EntryEventView::Loaded(Err(msg)), now) == (
            RouterStageView::Finished,
            RouterStepView::Reply(ResponseView { status: 500, body: BodyView::Text(msg) }),
        ),
        router_next(RouterStageView::HeadExisting, EntryEventView::Found(found), now) == (
            RouterStageView::Finished,
            RouterStepView::Reply(
                if found {
                    ResponseView { status: 200, body: BodyView::Empty }
                } else {
                    ResponseView { status: 404, body: BodyView::Text("File not found"@) }
                },
            ),
        ),
        router_next(RouterStageView::PutWriting, EntryEventView::Stored(false), now) == (
            RouterStageView::Finished,
            RouterStepView::Reply(ResponseView { status: 500, body: BodyView::Text("Write file failed"@) }),
        ),
        router_next(RouterStageView::DeleteRemoving, EntryEventView::Removed, now) == (
            RouterStageView::Finished,
            RouterStepView::Reply(ResponseView { status: 200, body: BodyView::Empty }),
        ),
{
}

/// What an entry operation does to a file store (the contents of each file
/// by its path), for a request whose body is `body`, and what it answers.
/// Reading a missing file fails with an empty message.
pub open spec fn entry_effect(op: EntryOpView, st: Map<Seq<u8>, Seq<u8>>, body: Seq<u8>) -> (
    Map<Seq<u8>, Seq<u8>>,
    EntryEventView,
) {
    match op {
        EntryOpView::Exist(p) => (st, EntryEventView::Found(st.contains_key(p))),
        EntryOpView::Read(p) => if st.contains_key(p) {
            (st, EntryEventView::Loaded(Ok(st[p])))
        } else {
            (st, EntryEventView::Loaded(Err(Seq::empty())))
        },
        EntryOpView::Write(p, t) => (
            st.insert(t, body).remove(t).insert(p, body),
            EntryEventView::Stored(true),
        ),
        EntryOpView::Delete(p) => (st.remove(p), EntryEventView::Removed),
    }
}

/// A whole request run against a file store: the store it leaves and the
/// answer, with `now` as the clock.
pub open spec fn router_run(
    s: RouterStageView,
    e: EntryEventView,
    st: Map<Seq<u8>, Seq<u8>>,
    body: Seq<u8>,
    now: int,
) -> (Map<Seq<u8>, Seq<u8>>, ResponseView)
    decreases router_rank(s),
{
    if !router_awaits(s, e) {
        (st, ok_empty())
    } else {
        let (s2, step) = router_next(s, e, now);
        match step {
            RouterStepView::Reply(r) => (st, r),
            RouterStepView::Run(op) => {
                let (st2, e2) = entry_effect(op, st, body);
                proof {
                    law_router_answers_once(s, e, now);
                }
                router_run(s2, e2, st2, body, now)
            },
        }
    }
}

/// A request of this method for this path, run against a file store with
/// the cache in the working directory `dir`.
pub open spec fn router_request(
    method: Method,
    path: Seq<char>,
    dir: Seq<u8>,
    st: Map<Seq<u8>, Seq<u8>>,
    body: Seq<u8>,
    now: int,
) -> (Map<Seq<u8>, Seq<u8>>, ResponseView) {
    router_run(RouterStageView::Start(method, path, dir), EntryEventView::Begin, st, body, now)
}

/// What a read gives back of a write: once a `PUT` of a path has been
/// answered `200`, a `GET` of the path answers `200` with the body that was
/// put, and a `HEAD` answers `200`; a later `PUT` replaces the body.
pub proof fn law_router_get_after_put(
    path: Seq<char>,
    dir: Seq<u8>,
    body: Seq<u8>,
    st: Map<Seq<u8>, Seq<u8>>,
    other: Seq<u8>,
    now: int,
    later: int,
)
    requires
        valid_cache_key(str_bytes(path)),
    ensures
        router_request(Method::Put, path, dir, st, body, now).1 == text_reply(
            200,
            "Write file successfully"@,
        ),
        router_request(
            Method::Get,
            path,
            dir,
            router_request(Method::Put, path, dir, st, body, now).0,
            other,
            later,
        ).1 == ok_data(body),
        router_request(
            Method::Head,
            path,
            dir,
            router_request(Method::Put, path, dir, st, body, now).0,
            other,
            later,
        ).1 == ok_empty(),
{
    reveal_with_fuel(router_run, 4);
    let f = entry_file(path, dir);
    let st1 = router_request(Method::Put, path, dir, st, body, now).0;
    assert(st1.contains_key(f) && st1[f] == body);
}

/// A `DELETE` of a path is answered `200`, and afterwards a `GET` or a
/// `HEAD` of the path answers `404 File not found`.
pub proof fn law_router_gone_after_delete(
    path: Seq<char>,
    dir: Seq<u8>,
    st: Map<Seq<u8>, Seq<u8>>,
    other: Seq<u8>,
    now: int,
    later: int,
)
    requires
        valid_cache_key(str_bytes(path)),
    ensures
        router_request(Method::Delete, path, dir, st, other, now).1 == ok_empty(),
        router_request(
            Method::Get,
            path,
            dir,
            router_request(Method::Delete, path, dir, st, other, now).0,
            other,
            later,
        ).1 == text_reply(404, "File not found"@),
        router_request(
            Method::Head,
            path,
            dir,
            router_request(Method::Delete, path, dir, st, other, now).0,
            other,
            later,
        ).1 == text_reply(404, "File not found"@),
{
    reveal_with_fuel(router_run, 4);
}

/// A request changes no file but the stored file of its own key and that
/// file's temporary files: every other path keeps its contents.
pub proof fn law_router_isolated(
    method: Method,
    path: Seq<char>,
    dir: Seq<u8>,
    st: Map<Seq<u8>, Seq<u8>>,
    body: Seq<u8>,
    now: int,
    q: Seq<u8>,
)
    requires
        method != Method::Other ==> valid_cache_key(str_bytes(path)),
        !names_entry_file(q, entry_file(path, dir)),
    ensures
        router_request(method, path, dir, st, body, now).0.contains_key(q) == st.contains_key(q),
        st.contains_key(q) ==> router_request(method, path, dir, st, body, now).0[q] == st[q],
{
    reveal_with_fuel(router_run, 4);
    let f = entry_file(path, dir);
    if method == Method::Put {
        assert(names_entry_file(temp_name(f, now), f));
    }
}

/// The first stage of a request with this method and path, with the cache
/// in the working directory `cwd`.
pub fn router_handler(method: Method, path: String, cwd: Vec<u8>) -> (r: RouterStage)
    ensures
        r@ == RouterStageView::Start(method, path@, cwd@),
{
    RouterStage::Start(method, path, cwd)
}

/// The next stage and step of a request, given the clock reading `now` in
/// whole seconds since the Unix epoch (used when a `PUT` starts).
pub fn router_step_at(stage: RouterStage, event: EntryEvent, now: i64) -> (r: (
    RouterStage,
    RouterStep,
))
    requires
        router_awaits(stage@, event@),
        router_startable(stage@),
    ensures
        (r.0@, r.1@) == router_next(stage@, event@, now as int),
        stage@ matches RouterStageView::Start(m, _, _) && m == Method::Other ==> (r.0@ is Finished
            && r.1@ == RouterStepView::Reply(text_reply(405, "Unsupported method"@))),
{
    proof {
        if let RouterStageView::Start(m, p, d) = stage@ {
            if m == Method::Other {
                law_router_other_method_refused(p, d, now as int);
            }
        }
    }
    match stage {
        RouterStage::Start(method, path, cwd) => {
            if method == Method::Other {
                return (
                    RouterStage::Finished,
                    RouterStep::Reply(text_response(405, "Unsupported method")),
                );
            }
            let local = LocalCache::new(path, cwd.as_slice());
            let f = local.file;
            match method {
                Method::Get => {
                    let op = EntryOp::Exist(f.clone());
                    (RouterStage::GetExisting(f), RouterStep::Run(op))
                },
                Method::Head => (RouterStage::HeadExisting, RouterStep::Run(EntryOp::Exist(f))),
                Method::Put => {
                    let tmp = temp_path(f.as_slice(), now);
                    (RouterStage::PutWriting, RouterStep::Run(EntryOp::Write(f, tmp)))
                },
                _ => (RouterStage::DeleteRemoving, RouterStep::Run(EntryOp::Delete(f))),
            }
        },
        RouterStage::GetExisting(f) => match event {
            EntryEvent::Found(true) => (RouterStage::GetReading, RouterStep::Run(EntryOp::Read(f))),
            _ => (RouterStage::Finished, RouterStep::Reply(text_response(404, "File not found"))),
        },
        RouterStage::GetReading => match event {
            EntryEvent::Loaded(Ok(d)) => (RouterStage::Finished, RouterStep::Reply(data_ok(d))),
            EntryEvent::Loaded(Err(m)) => (
                RouterStage::Finished,
                RouterStep::Reply(Response { status: 500, body: crate::http::Body::Text(m) }),
            ),
            _ => (RouterStage::Finished, RouterStep::Reply(empty_ok())),
        },
        RouterStage::HeadExisting => match event {
            EntryEvent::Found(true) => (RouterStage::Finished, RouterStep::Reply(empty_ok())),
            _ => (RouterStage::Finished, RouterStep::Reply(text_response(404, "File not found"))),
        },
        RouterStage::PutWriting => match event {
            EntryEvent::Stored(true) => (
                RouterStage::Finished,
                RouterStep::Reply(text_response(200, "Write file successfully")),
            ),
            _ => (RouterStage::Finished, RouterStep::Reply(text_response(500, "Write file failed"))),
        },
        RouterStage::DeleteRemoving => (RouterStage::Finished, RouterStep::Reply(empty_ok())),
        RouterStage::Finished => (RouterStage::Finished, RouterStep::Reply(empty_ok())),
    }
}

} // verus!
