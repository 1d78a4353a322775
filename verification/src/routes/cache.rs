//! The handler that serves every path of the server from the `cache`
//! directory: `GET` reads a file, `HEAD` tells whether it is there, `PUT`
//! stores the request body, `DELETE` removes the file.
//!
//! A request is handled as a sequence of steps. The handler starts from
//! `cache_handler`; each call of `cache_step_at` takes what the last file
//! operation gave, and the clock, and says which file operation comes next,
//! or what the client is answered. The clock names the temporary file of a
//! `PUT`.

use vstd::prelude::*;
use crate::http::{
    data_ok, empty_ok, ok_data, ok_empty, text_reply, text_response, BodyView, Method, Response,
    ResponseView,
};
use crate::routes::cache_local::{
    cache_dir, law_temp_sibling, str_bytes, temp_name, temp_path,
};
use crate::util::bytes::{
    contains_dotdot, extend_from, has_dotdot, lemma_concat_no_dotdot, lemma_trim_suffix,
    leading_slash_count, trim_leading_slashes, DOT, SLASH,
};

verus! {

/// The file a request path names: `cache/` followed by the path without its
/// leading `/` bytes; `None` when the path holds `..`.
pub open spec fn file_path_of(req_path: Seq<u8>) -> Option<Seq<u8>> {
    if has_dotdot(req_path) {
        None
    } else {
        Some(cache_dir() + seq![SLASH] + trim_leading_slashes(req_path))
    }
}

/// The prefix of every file the handler touches, `cache/`.
pub open spec fn cache_prefix() -> Seq<u8> {
    cache_dir() + seq![SLASH]
}

/// A request path names no file exactly when it holds `..`; the file it
/// names starts with `cache/` and holds no `..`, so the handler never
/// reaches outside the `cache` directory.
pub proof fn law_file_path_confined(req_path: Seq<u8>)
    ensures
        file_path_of(req_path) is None <==> has_dotdot(req_path),
        file_path_of(req_path) matches Some(f) ==> f.len() >= 6 && f.subrange(0, 6)
            == cache_prefix() && !has_dotdot(f),
{
    if !has_dotdot(req_path) {
        let rel = trim_leading_slashes(req_path);
        lemma_trim_suffix(req_path);
        let pre = cache_prefix();
        assert(!has_dotdot(pre)) by {
            assert forall|i: int| 0 <= i && i + 1 < pre.len() implies !(#[trigger] pre[i] == DOT
                && pre[i + 1] == DOT) by {}
        }
        lemma_concat_no_dotdot(pre, rel);
        assert((pre + rel).subrange(0, 6) =~= pre);
    }
}

/// The file a request path names, or `None` when the path holds `..`.
pub fn get_file_path(req_path: &str) -> (r: Option<Vec<u8>>)
    ensures
        r is None <==> file_path_of(str_bytes(req_path@)) is None,
        r matches Some(v) ==> file_path_of(str_bytes(req_path@)) == Some(v@),
{
    let b = req_path.as_bytes();
    if contains_dotdot(b) {
        return None;
    }
    let k = leading_slash_count(b);
    let mut out: Vec<u8> = Vec::new();
    out.push(99u8);
    out.push(97u8);
    out.push(99u8);
    out.push(104u8);
    out.push(101u8);
    out.push(SLASH);
    extend_from(&mut out, b, k);
    assert(out@ =~= cache_dir() + seq![SLASH] + trim_leading_slashes(b@));
    Some(out)
}

/// A file operation the handler asks for.
#[derive(Debug)]
pub enum FileOp {
    /// Whether the path exists or is a file; answered with `Event::Checked`.
    Check(Vec<u8>),
    /// Read the whole file; answered with `Event::Loaded`. A failure ends
    /// the request.
    Read(Vec<u8>),
    /// Create the directory the path lies in; answered with `Event::Done`.
    /// A failure ends the request.
    CreateParent(Vec<u8>),
    /// Write the request body to the path; answered with `Event::Done`.
    /// A failure ends the request.
    Write(Vec<u8>),
    /// Rename the first path to the second; answered with `Event::Done`.
    /// A failure ends the request.
    Rename(Vec<u8>, Vec<u8>),
    /// Remove the file; answered with `Event::Done`. A failure ends the
    /// request.
    Remove(Vec<u8>),
}

/// What a file operation holds.
pub enum FileOpView {
    Check(Seq<u8>),
    Read(Seq<u8>),
    CreateParent(Seq<u8>),
    Write(Seq<u8>),
    Rename(Seq<u8>, Seq<u8>),
    Remove(Seq<u8>),
}

impl View for FileOp {
    type V = FileOpView;

    open spec fn view(&self) -> FileOpView {
        match self {
            FileOp::Check(p) => FileOpView::Check(p@),
            FileOp::Read(p) => FileOpView::Read(p@),
            FileOp::CreateParent(p) => FileOpView::CreateParent(p@),
            FileOp::Write(p) => FileOpView::Write(p@),
            FileOp::Rename(a, b) => FileOpView::Rename(a@, b@),
            FileOp::Remove(p) => FileOpView::Remove(p@),
        }
    }
}

/// What the handler does next: a file operation, or the answer to the client.
#[derive(Debug)]
pub enum Step {
    Run(FileOp),
    Reply(Response),
}

/// What a step holds.
pub enum StepView {
    Run(FileOpView),
    Reply(ResponseView),
}

impl View for Step {
    type V = StepView;

    open spec fn view(&self) -> StepView {
        match self {
            Step::Run(op) => StepView::Run(op@),
            Step::Reply(r) => StepView::Reply(r@),
        }
    }
}

/// What the last file operation gave.
#[derive(Debug)]
pub enum Event {
    /// Nothing yet: the first step of a request.
    Begin,
    /// The answer of `FileOp::Check`.
    Checked(bool),
    /// The contents that `FileOp::Read` read.
    Loaded(Vec<u8>),
    /// The operation succeeded.
    Done,
}

/// What an event holds.
pub enum EventView {
    Begin,
    Checked(bool),
    Loaded(Seq<u8>),
    Done,
}

impl View for Event {
    type V = EventView;

    open spec fn view(&self) -> EventView {
        match self {
            Event::Begin => EventView::Begin,
            Event::Checked(b) => EventView::Checked(*b),
            Event::Loaded(d) => EventView::Loaded(d@),
            Event::Done => EventView::Done,
        }
    }
}

/// Where a request stands.
#[derive(Debug)]
pub enum CacheStage {
    /// Not started: the method, and the file the path names (`None` for a
    /// path that holds `..`).
    Start(Method, Option<Vec<u8>>),
    /// `GET`: waiting to learn whether the file is there.
    GetChecking(Vec<u8>),
    /// `GET`: waiting for the contents of the file.
    GetReading,
    /// `HEAD`: waiting to learn whether the file is there.
    HeadChecking,
    /// `PUT`: waiting for the directory of the file.
    PutPreparing(Vec<u8>),
    /// `PUT`: waiting for the body to be written; then the temporary file
    /// is renamed to the file.
    PutWriting(Vec<u8>, Vec<u8>),
    /// `PUT`: waiting for the rename.
    PutRenaming,
    /// `DELETE`: waiting to learn whether the file is there.
    DeleteChecking(Vec<u8>),
    /// `DELETE`: waiting for the file to be removed.
    DeleteRemoving,
    /// Answered.
    Finished,
}

/// What a stage holds.
pub enum CacheStageView {
    Start(Method, Option<Seq<u8>>),
    GetChecking(Seq<u8>),
    GetReading,
    HeadChecking,
    PutPreparing(Seq<u8>),
    PutWriting(Seq<u8>, Seq<u8>),
    PutRenaming,
    DeleteChecking(Seq<u8>),
    DeleteRemoving,
    Finished,
}

/// The view of an optional byte vector.
pub open spec fn opt_bytes(o: Option<Vec<u8>>) -> Option<Seq<u8>> {
    match o {
        Some(v) => Some(v@),
        None => None,
    }
}

impl View for CacheStage {
    type V = CacheStageView;

    open spec fn view(&self) -> CacheStageView {
        match self {
            CacheStage::Start(m, t) => CacheStageView::Start(*m, opt_bytes(*t)),
            CacheStage::GetChecking(p) => CacheStageView::GetChecking(p@),
            CacheStage::GetReading => CacheStageView::GetReading,
            CacheStage::HeadChecking => CacheStageView::HeadChecking,
            CacheStage::PutPreparing(p) => CacheStageView::PutPreparing(p@),
            CacheStage::PutWriting(p, t) => CacheStageView::PutWriting(p@, t@),
            CacheStage::PutRenaming => CacheStageView::PutRenaming,
            CacheStage::DeleteChecking(p) => CacheStageView::DeleteChecking(p@),
            CacheStage::DeleteRemoving => CacheStageView::DeleteRemoving,
            CacheStage::Finished => CacheStageView::Finished,
        }
    }
}

/// Whether a stage waits for this event: the first step takes `Begin`, a
/// check takes `Checked`, a read takes `Loaded`, the other operations take
/// `Done`; a finished request takes none.
pub open spec fn cache_awaits(s: CacheStageView, e: EventView) -> bool {
    match s {
        CacheStageView::Start(_, _) => e is Begin,
        CacheStageView::GetChecking(_) => e is Checked,
        CacheStageView::HeadChecking => e is Checked,
        CacheStageView::DeleteChecking(_) => e is Checked,
        CacheStageView::GetReading => e is Loaded,
        CacheStageView::PutPreparing(_) => e is Done,
        CacheStageView::PutWriting(_, _) => e is Done,
        CacheStageView::PutRenaming => e is Done,
        CacheStageView::DeleteRemoving => e is Done,
        CacheStageView::Finished => false,
    }
}

/// `404 Not Found` with `File not found`.
pub open spec fn not_found() -> ResponseView {
    text_reply(404, "File not found"@)
}

/// The next stage and step of a request, for an event the stage waits for;
/// `now` is the clock in whole seconds, read when a `PUT` starts writing.
pub open spec fn cache_next(s: CacheStageView, e: EventView, now: int) -> (
    CacheStageView,
    StepView,
) {
    match s {
        CacheStageView::Start(method, target) => match method {
            Method::Other => (
                CacheStageView::Finished,
                StepView::Reply(text_reply(405, "Unsupported method"@)),
            ),
            _ => match target {
                None => (
                    CacheStageView::Finished,
                    StepView::Reply(text_reply(403, "Invalid path"@)),
                ),
                Some(t) => match method {
                    Method::Get => (
                        CacheStageView::GetChecking(t),
                        StepView::Run(FileOpView::Check(t)),
                    ),
                    Method::Head => (
                        CacheStageView::HeadChecking,
                        StepView::Run(FileOpView::Check(t)),
                    ),
                    Method::Put => (
                        CacheStageView::PutPreparing(t),
                        StepView::Run(FileOpView::CreateParent(t)),
                    ),
                    _ => (
                        CacheStageView::DeleteChecking(t),
                        StepView::Run(FileOpView::Check(t)),
                    ),
                },
            },
        },
        CacheStageView::GetChecking(t) => if e == EventView::Checked(true) {
            (CacheStageView::GetReading, StepView::Run(FileOpView::Read(t)))
        } else {
            (CacheStageView::Finished, StepView::Reply(not_found()))
        },
        CacheStageView::GetReading => match e {
            EventView::Loaded(d) => (CacheStageView::Finished, StepView::Reply(ok_data(d))),
            _ => (CacheStageView::Finished, StepView::Reply(ok_data(Seq::empty()))),
        },
        CacheStageView::HeadChecking => if e == EventView::Checked(true) {
            (CacheStageView::Finished, StepView::Reply(ok_empty()))
        } else {
            (CacheStageView::Finished, StepView::Reply(not_found()))
        },
        CacheStageView::PutPreparing(t) => (
            CacheStageView::PutWriting(t, temp_name(t, now)),
            StepView::Run(FileOpView::Write(t)),
        ),
        CacheStageView::PutWriting(t, tmp) => (
            CacheStageView::PutRenaming,
            StepView::Run(FileOpView::Rename(tmp, t)),
        ),
        CacheStageView::PutRenaming => (
            CacheStageView::Finished,
            StepView::Reply(text_reply(200, "File written successfully"@)),
        ),
        CacheStageView::DeleteChecking(t) => if e == EventView::Checked(true) {
            (CacheStageView::DeleteRemoving, StepView::Run(FileOpView::Remove(t)))
        } else {
            (CacheStageView::Finished, StepView::Reply(ok_empty()))
        },
        CacheStageView::DeleteRemoving => (
            CacheStageView::Finished,
            StepView::Reply(ok_empty()),
        ),
        CacheStageView::Finished => (CacheStageView::Finished, StepView::Reply(ok_empty())),
    }
}

/// `p` is the file `f` or one of its temporary files.
pub open spec fn names_file(p: Seq<u8>, f: Seq<u8>) -> bool {
    p == f || exists|ts: int| p == temp_name(f, ts)
}

/// Every file a stage remembers is `f` or a temporary file of `f`.
pub open spec fn cache_stage_on(s: CacheStageView, f: Seq<u8>) -> bool {
    match s {
        CacheStageView::Start(_, t) => t is None || t == Some(f),
        CacheStageView::GetChecking(p) => p == f,
        CacheStageView::PutPreparing(p) => p == f,
        CacheStageView::PutWriting(p, tmp) => p == f && names_file(tmp, f),
        CacheStageView::DeleteChecking(p) => p == f,
        _ => true,
    }
}

/// Every file a file operation names is `f` or a temporary file of `f`.
pub open spec fn file_op_on(op: FileOpView, f: Seq<u8>) -> bool {
    match op {
        FileOpView::Check(p) => p == f,
        FileOpView::Read(p) => p == f,
        FileOpView::CreateParent(p) => p == f,
        FileOpView::Write(p) => p == f,
        FileOpView::Rename(a, b) => names_file(a, f) && b == f,
        FileOpView::Remove(p) => p == f,
    }
}

/// A request touches only its own file: from a stage that remembers only
/// `f` (as the first stage of a request does for the file its path names),
/// every step names only `f` or a temporary file of it, and so does the
/// next stage.
pub proof fn law_cache_touches_own_file(s: CacheStageView, e: EventView, now: int, f: Seq<u8>)
    requires
        cache_stage_on(s, f),
        cache_awaits(s, e),
    ensures
        cache_stage_on(cache_next(s, e, now).0, f),
        cache_next(s, e, now).1 matches StepView::Run(op) ==> file_op_on(op, f),
{
    if let CacheStageView::PutPreparing(p) = s {
        assert(cache_next(s, e, now).0 == CacheStageView::PutWriting(f, temp_name(f, now)));
        assert(names_file(temp_name(f, now), f));
    }
}

/// How many steps a stage is at most away from the answer.
pub open spec fn cache_rank(s: CacheStageView) -> nat {
    match s {
        CacheStageView::Start(_, _) => 4,
        CacheStageView::GetChecking(_) => 3,
        CacheStageView::GetReading => 1,
        CacheStageView::HeadChecking => 1,
        CacheStageView::PutPreparing(_) => 3,
        CacheStageView::PutWriting(_, _) => 2,
        CacheStageView::PutRenaming => 1,
        CacheStageView::DeleteChecking(_) => 2,
        CacheStageView::DeleteRemoving => 1,
        CacheStageView::Finished => 0,
    }
}

/// Every request is answered, exactly once: each step brings the request
/// closer to its answer, and a step is the answer exactly when it finishes
/// the request.
pub proof fn law_cache_answers_once(s: CacheStageView, e: EventView, now: int)
    requires
        cache_awaits(s, e),
    ensures
        cache_rank(cache_next(s, e, now).0) < cache_rank(s),
        (cache_next(s, e, now).0 is Finished) <==> (cache_next(s, e, now).1 is Reply),
{
}

/// A request whose method is none of `GET`, `HEAD`, `PUT`, `DELETE` is
/// answered `405 Unsupported method` in its first step, whatever its path,
/// even one holding `..`: it runs no file operation.
pub proof fn law_cache_other_method_refused(target: Option<Seq<u8>>, now: int)
    ensures
        cache_next(CacheStageView::Start(Method::Other, target), EventView::Begin, now) == (
            CacheStageView::Finished,
            StepView::Reply(ResponseView { status: 405, body: BodyView::Text("Unsupported method"@) }),
        ),
{
}

/// What a file operation does to a file store (the contents of each file by
/// its path), for a request whose body is `body`, and what it answers;
/// `None` when it fails, which ends the request without an answer: reading,
/// renaming or removing a missing file fails.
pub open spec fn file_effect(op: FileOpView, st: Map<Seq<u8>, Seq<u8>>, body: Seq<u8>) -> Option<
    (Map<Seq<u8>, Seq<u8>>, EventView),
> {
    match op {
        FileOpView::Check(p) => Some((st, EventView::Checked(st.contains_key(p)))),
        FileOpView::Read(p) => if st.contains_key(p) {
            Some((st, EventView::Loaded(st[p])))
        } else {
            None
        },
        FileOpView::CreateParent(_) => Some((st, EventView::Done)),
        FileOpView::Write(p) => Some((st.insert(p, body), EventView::Done)),
        FileOpView::Rename(a, b) => if st.contains_key(a) {
            Some((st.remove(a).insert(b, st[a]), EventView::Done))
        } else {
            None
        },
        FileOpView::Remove(p) => if st.contains_key(p) {
            Some((st.remove(p), EventView::Done))
        } else {
            None
        },
    }
}

/// A whole request run against a file store: the store it leaves, and the
/// answer (`None` when a file operation failed), with `now` as the clock.
pub open spec fn cache_run(
    s: CacheStageView,
    e: EventView,
    st: Map<Seq<u8>, Seq<u8>>,
    body: Seq<u8>,
    now: int,
) -> (Map<Seq<u8>, Seq<u8>>, Option<ResponseView>)
    decreases cache_rank(s),
{
    if !cache_awaits(s, e) {
        (st, None)
    } else {
        let (s2, step) = cache_next(s, e, now);
        match step {
            StepView::Reply(r) => (st, Some(r)),
            StepView::Run(op) => match file_effect(op, st, body) {
                None => (st, None),
                Some((st2, e2)) => {
                    proof {
                        law_cache_answers_once(s, e, now);
                    }
                    cache_run(s2, e2, st2, body, now)
                },
            },
        }
    }
}

/// A request of this method for this path, run against a file store.
pub open spec fn cache_request(
    method: Method,
    path: Seq<char>,
    st: Map<Seq<u8>, Seq<u8>>,
    body: Seq<u8>,
    now: int,
) -> (Map<Seq<u8>, Seq<u8>>, Option<ResponseView>) {
    cache_run(
        CacheStageView::Start(method, file_path_of(str_bytes(path))),
        EventView::Begin,
        st,
        body,
        now,
    )
}

/// A `PUT` stores its body at the file its path names, and then renames
/// its temporary file onto that file, a file it never wrote: when no file
/// has the temporary name the rename fails and the `PUT` gets no answer,
/// though the body is stored; a later `GET` of the path answers `200` with
/// that body, and a `HEAD` answers `200`.
pub proof fn law_cache_get_after_put(
    path: Seq<char>,
    body: Seq<u8>,
    st: Map<Seq<u8>, Seq<u8>>,
    other: Seq<u8>,
    now: int,
    later: int,
)
    requires
        file_path_of(str_bytes(path)) is Some,
        !st.contains_key(temp_name(file_path_of(str_bytes(path))->Some_0, now)),
    ensures
        cache_request(Method::Put, path, st, body, now).1 is None,
        cache_request(
            Method::Get,
            path,
            cache_request(Method::Put, path, st, body, now).0,
            other,
            later,
        ).1 == Some(ok_data(body)),
        cache_request(
            Method::Head,
            path,
            cache_request(Method::Put, path, st, body, now).0,
            other,
            later,
        ).1 == Some(ok_empty()),
{
    reveal_with_fuel(cache_run, 5);
    let f = file_path_of(str_bytes(path))->Some_0;
    law_temp_sibling(f, now);
    assert(temp_name(f, now) != f);
    let st1 = cache_request(Method::Put, path, st, body, now).0;
    assert(st1 == st.insert(f, body));
}

/// A `DELETE` of a path is answered `200`; afterwards a `GET` or a `HEAD`
/// of the path answers `404 File not found`.
pub proof fn law_cache_gone_after_delete(
    path: Seq<char>,
    st: Map<Seq<u8>, Seq<u8>>,
    other: Seq<u8>,
    now: int,
    later: int,
)
    requires
        file_path_of(str_bytes(path)) is Some,
    ensures
        cache_request(Method::Delete, path, st, other, now).1 == Some(ok_empty()),
        cache_request(
            Method::Get,
            path,
            cache_request(Method::Delete, path, st, other, now).0,
            other,
            later,
        ).1 == Some(not_found()),
        cache_request(
            Method::Head,
            path,
            cache_request(Method::Delete, path, st, other, now).0,
            other,
            later,
        ).1 == Some(not_found()),
{
    reveal_with_fuel(cache_run, 4);
}

/// A request changes no file but the one its path names and that file's
/// temporary files: every other path keeps its contents.
pub proof fn law_cache_isolated(
    method: Method,
    path: Seq<char>,
    st: Map<Seq<u8>, Seq<u8>>,
    body: Seq<u8>,
    now: int,
    q: Seq<u8>,
)
    requires
        file_path_of(str_bytes(path)) matches Some(f) ==> !names_file(q, f),
    ensures
        cache_request(method, path, st, body, now).0.contains_key(q) == st.contains_key(q),
        st.contains_key(q) ==> cache_request(method, path, st, body, now).0[q] == st[q],
{
    reveal_with_fuel(cache_run, 5);
    if let Some(f) = file_path_of(str_bytes(path)) {
        assert(names_file(temp_name(f, now), f));
    }
}

/// A request whose method is none of `GET`, `HEAD`, `PUT`, `DELETE` leaves
/// every file of the store as it was and is answered `405 Unsupported
/// method`, whatever its path.
pub proof fn law_cache_other_method_touches_nothing(
    path: Seq<char>,
    st: Map<Seq<u8>, Seq<u8>>,
    body: Seq<u8>,
    now: int,
)
    ensures
        cache_request(Method::Other, path, st, body, now) == (
            st,
            Some(ResponseView { status: 405, body: BodyView::Text("Unsupported method"@) }),
        ),
{
    law_cache_other_method_refused(file_path_of(str_bytes(path)), now);
    reveal_with_fuel(cache_run, 2);
}

/// A `GET`, `HEAD`, `PUT` or `DELETE` whose path holds `..` is answered
/// `403 Invalid path` in its first step and leaves every file as it was.
pub proof fn law_cache_dotdot_forbidden(
    method: Method,
    path: Seq<char>,
    st: Map<Seq<u8>, Seq<u8>>,
    body: Seq<u8>,
    now: int,
)
    requires
        method != Method::Other,
        has_dotdot(str_bytes(path)),
    ensures
        cache_request(method, path, st, body, now) == (
            st,
            Some(ResponseView { status: 403, body: BodyView::Text("Invalid path"@) }),
        ),
{
    law_file_path_confined(str_bytes(path));
    reveal_with_fuel(cache_run, 2);
}

/// Of a file the store does not hold, a `GET` and a `HEAD` answer `404 File
/// not found`, and a `DELETE` answers `200` with no body; none of them
/// changes the store. Of a file it holds, a `GET` answers `200` with its
/// contents and a `HEAD` answers `200` with no body.
pub proof fn law_cache_reads(
    path: Seq<char>,
    st: Map<Seq<u8>, Seq<u8>>,
    body: Seq<u8>,
    now: int,
)
    requires
        file_path_of(str_bytes(path)) is Some,
    ensures
        !st.contains_key(file_path_of(str_bytes(path))->Some_0) ==> cache_request(
            Method::Get,
            path,
            st,
            body,
            now,
        ) == (st, Some(ResponseView { status: 404, body: BodyView::Text("File not found"@) })),
        !st.contains_key(file_path_of(str_bytes(path))->Some_0) ==> cache_request(
            Method::Head,
            path,
            st,
            body,
            now,
        ) == (st, Some(ResponseView { status: 404, body: BodyView::Text("File not found"@) })),
        !st.contains_key(file_path_of(str_bytes(path))->Some_0) ==> cache_request(
            Method::Delete,
            path,
            st,
            body,
            now,
        ) == (st, Some(ResponseView { status: 200, body: BodyView::Empty })),
        st.contains_key(file_path_of(str_bytes(path))->Some_0) ==> cache_request(
            Method::Get,
            path,
            st,
            body,
            now,
        ) == (
            st,
            Some(
                ResponseView {
                    status: 200,
                    body: BodyView::Data(st[file_path_of(str_bytes(path))->Some_0]),
                },
            ),
        ),
        st.contains_key(file_path_of(str_bytes(path))->Some_0) ==> cache_request(
            Method::Head,
            path,
            st,
            body,
            now,
        ) == (st, Some(ResponseView { status: 200, body: BodyView::Empty })),
{
    reveal_with_fuel(cache_run, 4);
}

/// The first stage of a request with this method and path.
pub fn cache_handler(method: Method, path: &str) -> (r: CacheStage)
    ensures
        r@ == CacheStageView::Start(method, file_path_of(str_bytes(path@))),
{
    let target = get_file_path(path);
    CacheStage::Start(method, target)
}

/// The next stage and step of a request, given the clock reading `now` in
/// whole seconds since the Unix epoch (used when a `PUT` starts writing).
pub fn cache_step_at(stage: CacheStage, event: Event, now: i64) -> (r: (CacheStage, Step))
    requires
        cache_awaits(stage@, event@),
    ensures
        (r.0@, r.1@) == cache_next(stage@, event@, now as int),
        stage@ matches CacheStageView::Start(m, _) && m == Method::Other ==> (r.0@ is Finished
            && r.1@ == StepView::Reply(text_reply(405, "Unsupported method"@))),
{
    proof {
        if let CacheStageView::Start(m, t) = stage@ {
            if m == Method::Other {
                law_cache_other_method_refused(t, now as int);
            }
        }
    }
    match stage {
        CacheStage::Start(method, target) => match method {
            Method::Other => (
                CacheStage::Finished,
                Step::Reply(text_response(405, "Unsupported method")),
            ),
            _ => match target {
                None => (CacheStage::Finished, Step::Reply(text_response(403, "Invalid path"))),
                Some(t) => match method {
                    Method::Get => {
                        let op = FileOp::Check(t.clone());
                        (CacheStage::GetChecking(t), Step::Run(op))
                    },
                    Method::Head => (CacheStage::HeadChecking, Step::Run(FileOp::Check(t))),
                    Method::Put => {
                        let op = FileOp::CreateParent(t.clone());
                        (CacheStage::PutPreparing(t), Step::Run(op))
                    },
                    _ => {
                        let op = FileOp::Check(t.clone());
                        (CacheStage::DeleteChecking(t), Step::Run(op))
                    },
                },
            },
        },
        CacheStage::GetChecking(t) => match event {
            Event::Checked(true) => (CacheStage::GetReading, Step::Run(FileOp::Read(t))),
            _ => (CacheStage::Finished, Step::Reply(text_response(404, "File not found"))),
        },
        CacheStage::GetReading => match event {
            Event::Loaded(d) => (CacheStage::Finished, Step::Reply(data_ok(d))),
            _ => (CacheStage::Finished, Step::Reply(data_ok(Vec::new()))),
        },
        CacheStage::HeadChecking => match event {
            Event::Checked(true) => (CacheStage::Finished, Step::Reply(empty_ok())),
            _ => (CacheStage::Finished, Step::Reply(text_response(404, "File not found"))),
        },
        CacheStage::PutPreparing(t) => {
            let tmp = temp_path(t.as_slice(), now);
            let op = FileOp::Write(t.clone());
            (CacheStage::PutWriting(t, tmp), Step::Run(op))
        },
        CacheStage::PutWriting(t, tmp) => (CacheStage::PutRenaming, Step::Run(FileOp::Rename(tmp, t))),
        CacheStage::PutRenaming => (
            CacheStage::Finished,
            Step::Reply(text_response(200, "File written successfully")),
        ),
        CacheStage::DeleteChecking(t) => match event {
            Event::Checked(true) => (CacheStage::DeleteRemoving, Step::Run(FileOp::Remove(t))),
            _ => (CacheStage::Finished, Step::Reply(empty_ok())),
        },
        CacheStage::DeleteRemoving => (CacheStage::Finished, Step::Reply(empty_ok())),
        CacheStage::Finished => (CacheStage::Finished, Step::Reply(empty_ok())),
    }
}

} // verus!
