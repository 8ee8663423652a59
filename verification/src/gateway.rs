//! The control surface behind the gateway: the request shapes it accepts
//! and the decision each operation makes against the shared state. The
//! surrounding process terminates connections and HTTP; every status it
//! reports comes from here.

use vstd::prelude::*;
use vstd::string::StringExecFns;
use crate::registry::Registry;
use crate::relay::{spec_try_start, CDPStream};
use crate::scheduler::CognitiveSystem;
use crate::task::{Task, TaskStatus};

verus! {

pub struct BroadcastReq {
    pub user_id: String,
    pub message: String,
}

pub struct CdpStartReq {
    pub user_id: String,
}

pub struct CreateTaskReq {
    pub user_id: String,
    pub description: String,
}

pub struct GetTaskReq {
    pub user_id: String,
}

pub struct SetKeyReq {
    pub user_id: String,
    pub api_key: String,
}

pub struct GetKeyReq {
    pub user_id: String,
}

/// The answer to a broadcast: the delivery handle to enqueue on, or the
/// report that the user is offline.
pub enum BroadcastResp {
    Sent { handle: u64 },
    Offline,
}

/// A broadcast is only attempted delivery: it yields the handle of the
/// user's registry entry when one exists, and the offline answer — with
/// no delivery at all — exactly when none does.
pub fn broadcast(reg: &Registry, req: &BroadcastReq) -> (r: BroadcastResp)
    requires
        reg.wf(),
    ensures
        match r {
            BroadcastResp::Sent { handle } => reg@.contains_key(req.user_id@) && handle
                == reg@[req.user_id@],
            BroadcastResp::Offline => !reg@.contains_key(req.user_id@),
        },
{
    match reg.lookup(req.user_id.as_str()) {
        Some(handle) => BroadcastResp::Sent { handle },
        None => BroadcastResp::Offline,
    }
}

pub struct CreateTaskResp {
    pub status: String,
    pub user_id: String,
}

/// Creates (or silently replaces) the user's task and reports "created";
/// the returned record must be written to the durable store.
pub fn create_task(sys: &mut CognitiveSystem, req: CreateTaskReq) -> (r: (
    CreateTaskResp,
    (String, String),
))
    requires
        old(sys).wf(),
    ensures
        final(sys).wf(),
        final(sys)@ == old(sys)@.insert(
            req.user_id@,
            Task::spec_fresh(req.user_id, req.description),
        ),
        r.0.status@ == "created"@,
        r.0.user_id@ == req.user_id@,
        r.1.0@ == req.user_id@,
        r.1.1@ == crate::codec::spec_encode_task(
            Task::spec_fresh(req.user_id, req.description)@,
        ),
{
    let user_id = req.user_id;
    let record = sys.set_goal(user_id.clone(), req.description);
    (CreateTaskResp { status: String::from_str("created"), user_id }, record)
}

/// The snapshot a task query reports.
pub struct TaskSnapshot {
    pub id: String,
    pub description: String,
    pub step: u32,
    pub status: TaskStatus,
}

pub enum GetTaskResp {
    Found(TaskSnapshot),
    NotFound,
}

/// Reports the user's task exactly as the scheduler holds it, or that
/// none exists.
pub fn get_task(sys: &CognitiveSystem, req: &GetTaskReq) -> (r: GetTaskResp)
    requires
        sys.wf(),
    ensures
        match r {
            GetTaskResp::Found(s) => {
                &&& sys@.contains_key(req.user_id@)
                &&& s.id@ == sys@[req.user_id@].id@
                &&& s.description@ == sys@[req.user_id@].description@
                &&& s.step == sys@[req.user_id@].step
                &&& s.status == sys@[req.user_id@].status
            },
            GetTaskResp::NotFound => !sys@.contains_key(req.user_id@),
        },
{
    match sys.get(req.user_id.as_str()) {
        Some(t) => GetTaskResp::Found(
            TaskSnapshot {
                id: t.id.clone(),
                description: t.description.clone(),
                step: t.step,
                status: t.status,
            },
        ),
        None => GetTaskResp::NotFound,
    }
}

pub struct CdpStartResp {
    pub status: String,
}

/// Triggers the capture relay for the user, fire-and-forget: the answer
/// is "started" whether a session began or one was already running and
/// the request was a no-op; the flag says which, for the session loop.
pub fn cdp_start(stream: &mut CDPStream, req: CdpStartReq) -> (r: (CdpStartResp, bool))
    requires
        old(stream).wf(),
    ensures
        final(stream).wf(),
        (*final(stream), r.1) == spec_try_start(*old(stream), req.user_id),
        r.0.status@ == "started"@,
{
    let started = stream.try_start(req.user_id);
    (CdpStartResp { status: String::from_str("started") }, started)
}

/// The accounting categories a report may name.
#[derive(Clone, Copy, Debug, PartialEq, Eq, Structural)]
pub enum ReportKind {
    Browser,
    Ws,
    Ai,
}

pub open spec fn spec_report_kind(s: Seq<char>) -> Option<ReportKind> {
    if s == "browser"@ {
        Some(ReportKind::Browser)
    } else if s == "ws"@ {
        Some(ReportKind::Ws)
    } else if s == "ai"@ {
        Some(ReportKind::Ai)
    } else {
        None
    }
}

pub fn parse_report_kind(s: &str) -> (r: Option<ReportKind>)
    ensures
        r == spec_report_kind(s@),
{
    if crate::kv::str_eq(s, "browser") {
        Some(ReportKind::Browser)
    } else if crate::kv::str_eq(s, "ws") {
        Some(ReportKind::Ws)
    } else if crate::kv::str_eq(s, "ai") {
        Some(ReportKind::Ai)
    } else {
        None
    }
}

/// The accounting call an accepted report turns into.
#[derive(Clone, Copy, Debug, PartialEq, Eq, Structural)]
pub enum AccountingCall {
    TrackBrowser { tx: usize, rx: usize },
    TrackWs { tx: usize, rx: usize },
    TrackAi { input_tokens: u64, output_tokens: u64 },
}

pub open spec fn or_zero_usize(o: Option<usize>) -> usize {
    match o {
        Some(v) => v,
        None => 0,
    }
}

pub open spec fn or_zero_u64(o: Option<u64>) -> u64 {
    match o {
        Some(v) => v,
        None => 0,
    }
}

/// Routes an accounting report by its category, absent fields counting
/// as zero; a report of an unknown category is ignored.
pub fn cost_dispatch(
    kind: &str,
    tx: Option<usize>,
    rx: Option<usize>,
    input_tokens: Option<u64>,
    output_tokens: Option<u64>,
) -> (c: Option<AccountingCall>)
    ensures
        match spec_report_kind(kind@) {
            Some(ReportKind::Browser) => c == Some(
                AccountingCall::TrackBrowser { tx: or_zero_usize(tx), rx: or_zero_usize(rx) },
            ),
            Some(ReportKind::Ws) => c == Some(
                AccountingCall::TrackWs { tx: or_zero_usize(tx), rx: or_zero_usize(rx) },
            ),
            Some(ReportKind::Ai) => c == Some(
                AccountingCall::TrackAi {
                    input_tokens: or_zero_u64(input_tokens),
                    output_tokens: or_zero_u64(output_tokens),
                },
            ),
            None => c is None,
        },
{
    match parse_report_kind(kind) {
        Some(ReportKind::Browser) => Some(
            AccountingCall::TrackBrowser { tx: tx.unwrap_or(0), rx: rx.unwrap_or(0) },
        ),
        Some(ReportKind::Ws) => Some(
            AccountingCall::TrackWs { tx: tx.unwrap_or(0), rx: rx.unwrap_or(0) },
        ),
        Some(ReportKind::Ai) => Some(
            AccountingCall::TrackAi {
                input_tokens: input_tokens.unwrap_or(0),
                output_tokens: output_tokens.unwrap_or(0),
            },
        ),
        None => None,
    }
}

/// The one-time greeting sent on a fresh connection.
pub fn greeting() -> (s: String)
    ensures
        s@ == "Connected to Angel Gateway"@,
{
    String::from_str("Connected to Angel Gateway")
}

/// Recognizes the client heartbeat token, which gets no reply.
pub fn is_heartbeat(text: &str) -> (r: bool)
    ensures
        r == (text@ == "ping"@),
{
    crate::kv::str_eq(text, "ping")
}

} // verus!
