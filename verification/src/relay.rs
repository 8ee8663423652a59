//! The capture relay: discovers a capture target, negotiates a streaming
//! session upstream, and forwards frames to the owning user's registry
//! entry. The surrounding process performs the network calls and hands
//! their outcomes to this state machine; at most one session runs
//! process-wide, guarded by the check-and-set in `try_start`.

use vstd::prelude::*;
use vstd::string::StringExecFns;
use crate::registry::Registry;

verus! {

/// How many discovery polls are attempted before the session gives up.
pub const DISCOVERY_ATTEMPTS: u32 = 10;

/// Milliseconds between two discovery polls.
pub const DISCOVERY_RETRY_MS: u64 = 500;

pub const CAPTURE_QUALITY: u32 = 60;

pub const CAPTURE_MAX_WIDTH: u32 = 1280;

pub const CAPTURE_MAX_HEIGHT: u32 = 720;

/// One entry of the discovery listing: the target's kind and, if it has
/// one, its session address.
pub struct CaptureTarget {
    pub kind: String,
    pub ws_url: Option<String>,
}

#[derive(Clone, Copy, Debug, PartialEq, Eq, Structural)]
pub enum RelayPhase {
    Idle,
    Discovering,
    Negotiating,
    Streaming,
}

/// What a discovery poll outcome asks the session loop to do next.
pub enum DiscoveryStep {
    Connect(String),
    Retry,
    GiveUp,
}

/// One inbound upstream protocol event, as the session loop reads it.
pub struct CaptureFrame {
    pub session_id: i64,
    pub data: String,
    pub timestamp: String,
}

pub enum StreamEvent {
    Frame(CaptureFrame),
    Other,
    ReadError,
}

/// The outbound envelope a frame is forwarded in.
pub struct VisionEnvelope {
    pub kind: String,
    pub frame: String,
    pub timestamp: String,
}

/// An effect the session loop must perform, in order: acknowledge a frame
/// upstream, or deliver an envelope to a user's registry entry.
pub enum RelayAction {
    Ack { session_id: i64 },
    Deliver { user_id: String, envelope: VisionEnvelope },
}

/// The fixed activation command of a capture session.
pub struct CaptureCommand {
    pub id: u64,
    pub method: String,
    pub format: String,
    pub quality: u32,
    pub max_width: u32,
    pub max_height: u32,
    pub every_nth_frame: u32,
}

/// The activation command: JPEG frames at fixed quality and bounds,
/// every frame captured.
pub fn start_capture_command() -> (c: CaptureCommand)
    ensures
        c.id == 1,
        c.method@ == "Page.startScreencast"@,
        c.format@ == "jpeg"@,
        c.quality == CAPTURE_QUALITY,
        c.max_width == CAPTURE_MAX_WIDTH,
        c.max_height == CAPTURE_MAX_HEIGHT,
        c.every_nth_frame == 1,
{
    CaptureCommand {
        id: 1,
        method: String::from_str("Page.startScreencast"),
        format: String::from_str("jpeg"),
        quality: CAPTURE_QUALITY,
        max_width: CAPTURE_MAX_WIDTH,
        max_height: CAPTURE_MAX_HEIGHT,
        every_nth_frame: 1,
    }
}

/// The address of the first discovery entry that is an ordinary page and
/// has a session address; non-page targets such as extension surfaces
/// are skipped.
pub open spec fn spec_first_page(targets: Seq<CaptureTarget>) -> Option<Seq<char>>
    decreases targets.len(),
{
    if targets.len() == 0 {
        None
    } else if targets.first().kind@ == "page"@ && targets.first().ws_url is Some {
        Some(targets.first().ws_url.unwrap()@)
    } else {
        spec_first_page(targets.drop_first())
    }
}

pub fn select_page_target(targets: &Vec<CaptureTarget>) -> (r: Option<String>)
    ensures
        match r {
            Some(u) => spec_first_page(targets@) == Some(u@),
            None => spec_first_page(targets@) is None,
        },
{
    let n = targets.len();
    proof {
        assert(targets@.skip(0) =~= targets@);
    }
    let mut i: usize = 0;
    while i < n
        invariant
            n == targets@.len(),
            i <= n,
            spec_first_page(targets@) == spec_first_page(targets@.skip(i as int)),
        decreases n - i,
    {
        proof {
            assert(targets@.skip(i as int).first() == targets@[i as int]);
            assert(targets@.skip(i as int).drop_first() =~= targets@.skip(i + 1));
        }
        let t = &targets[i];
        if crate::kv::str_eq(t.kind.as_str(), "page") {
            match &t.ws_url {
                Some(u) => {
                    return Some(u.clone());
                },
                None => {},
            }
        }
        i += 1;
    }
    proof {
        assert(targets@.skip(n as int).len() == 0);
    }
    None
}

/// The capture relay session state. The phase doubles as the
/// process-wide running flag: a session exists exactly while the phase
/// is not `Idle`.
pub struct CDPStream {
    phase: RelayPhase,
    user: Option<String>,
    attempts: u32,
}

impl CDPStream {
    pub closed spec fn spec_phase(&self) -> RelayPhase {
        self.phase
    }

    pub closed spec fn spec_user(&self) -> Option<String> {
        self.user
    }

    pub closed spec fn spec_attempts(&self) -> u32 {
        self.attempts
    }

    /// The running flag: whether a session is active anywhere in the
    /// process.
    pub open spec fn is_running(&self) -> bool {
        self.spec_phase() != RelayPhase::Idle
    }

    pub closed spec fn wf(&self) -> bool {
        &&& (self.phase == RelayPhase::Idle <==> self.user is None)
        &&& (self.phase == RelayPhase::Discovering ==> self.attempts < DISCOVERY_ATTEMPTS)
    }

    pub fn new() -> (s: Self)
        ensures
            s.wf(),
            !s.is_running(),
            s.spec_phase() == RelayPhase::Idle,
    {
        CDPStream { phase: RelayPhase::Idle, user: None, attempts: 0 }
    }

    pub fn is_running_now(&self) -> (r: bool)
        ensures
            r == self.is_running(),
    {
        !matches!(self.phase, RelayPhase::Idle)
    }

    /// The current phase, for the session loop to test before it acts.
    pub fn phase_now(&self) -> (p: RelayPhase)
        ensures
            p == self.spec_phase(),
    {
        self.phase
    }

    /// The guarded entry into a session: while one session runs, a start
    /// request is a silent no-op that leaves it untouched; otherwise
    /// discovery begins for the requesting user.
    pub fn try_start(&mut self, user_id: String) -> (started: bool)
        requires
            old(self).wf(),
        ensures
            final(self).wf(),
            final(self).is_running(),
            old(self).is_running() ==> !started && *final(self) == *old(self),
            !old(self).is_running() ==> started && final(self).spec_phase()
                == RelayPhase::Discovering && final(self).spec_user() == Some(user_id)
                && final(self).spec_attempts() == 0,
            (*final(self), started) == spec_try_start(*old(self), user_id),
    {
        match self.phase {
            RelayPhase::Idle => {
                self.phase = RelayPhase::Discovering;
                self.user = Some(user_id);
                self.attempts = 0;
                true
            },
            _ => false,
        }
    }

    /// Feeds one discovery poll outcome in: a found address moves the
    /// session to negotiation; a miss is retried until the attempt
    /// budget is spent, and then the session halts, clearing the flag.
    pub fn poll_result(&mut self, found: Option<String>) -> (step: DiscoveryStep)
        requires
            old(self).wf(),
            old(self).spec_phase() == RelayPhase::Discovering,
        ensures
            final(self).wf(),
            match found {
                Some(url) => {
                    &&& step == DiscoveryStep::Connect(url)
                    &&& final(self).spec_phase() == RelayPhase::Negotiating
                    &&& final(self).spec_user() == old(self).spec_user()
                },
                None => if old(self).spec_attempts() + 1 < DISCOVERY_ATTEMPTS {
                    &&& step == DiscoveryStep::Retry
                    &&& final(self).spec_phase() == RelayPhase::Discovering
                    &&& final(self).spec_user() == old(self).spec_user()
                    &&& final(self).spec_attempts() == old(self).spec_attempts() + 1
                } else {
                    &&& step == DiscoveryStep::GiveUp
                    &&& !final(self).is_running()
                },
            },
    {
        match found {
            Some(url) => {
                self.phase = RelayPhase::Negotiating;
                DiscoveryStep::Connect(url)
            },
            None => {
                if self.attempts + 1 < DISCOVERY_ATTEMPTS {
                    self.attempts = self.attempts + 1;
                    DiscoveryStep::Retry
                } else {
                    self.phase = RelayPhase::Idle;
                    self.user = None;
                    DiscoveryStep::GiveUp
                }
            },
        }
    }

    /// A failed upstream connection halts the session and clears the
    /// flag.
    pub fn connect_failed(&mut self)
        requires
            old(self).wf(),
            old(self).spec_phase() == RelayPhase::Negotiating,
        ensures
            final(self).wf(),
            !final(self).is_running(),
    {
        self.phase = RelayPhase::Idle;
        self.user = None;
    }

    /// The outcome of sending the activation command: on success frames
    /// may flow; on failure the session halts and the flag clears.
    pub fn activation_sent(&mut self, ok: bool)
        requires
            old(self).wf(),
            old(self).spec_phase() == RelayPhase::Negotiating,
        ensures
            final(self).wf(),
            ok ==> final(self).spec_phase() == RelayPhase::Streaming && final(self).spec_user()
                == old(self).spec_user(),
            !ok ==> !final(self).is_running(),
    {
        if ok {
            self.phase = RelayPhase::Streaming;
        } else {
            self.phase = RelayPhase::Idle;
            self.user = None;
        }
    }

    /// Handles one upstream event while streaming. A frame event yields
    /// its acknowledgment first — exactly one, carrying the same session
    /// id — and then, if the owning user has a registry entry, one
    /// delivery of the frame envelope; without an entry the frame is
    /// dropped silently. Other events are ignored; a read error ends the
    /// session and clears the flag.
    pub fn stream_event(&mut self, reg: &Registry, ev: StreamEvent) -> (acts: Vec<RelayAction>)
        requires
            old(self).wf(),
            old(self).spec_phase() == RelayPhase::Streaming,
            reg.wf(),
        ensures
            final(self).wf(),
            match ev {
                StreamEvent::Frame(f) => {
                    &&& *final(self) == *old(self)
                    &&& acts@.len() >= 1
                    &&& acts@[0] == RelayAction::Ack { session_id: f.session_id }
                    &&& forall|j: int|
                        1 <= j < acts@.len() ==> !(#[trigger] acts@[j] is Ack)
                    &&& if reg@.contains_key(old(self).spec_user().unwrap()@) {
                        &&& acts@.len() == 2
                        &&& acts@[1] matches RelayAction::Deliver { user_id, envelope }
                            && user_id@ == old(self).spec_user().unwrap()@
                            && envelope.kind@ == "vision"@
                            && envelope.frame == f.data
                            && envelope.timestamp == f.timestamp
                    } else {
                        acts@.len() == 1
                    }
                },
                StreamEvent::Other => acts@.len() == 0 && *final(self) == *old(self),
                StreamEvent::ReadError => acts@.len() == 0 && !final(self).is_running(),
            },
    {
        let mut acts: Vec<RelayAction> = Vec::new();
        match ev {
            StreamEvent::Frame(f) => {
                acts.push(RelayAction::Ack { session_id: f.session_id });
                let user = match &self.user {
                    Some(u) => u,
                    None => {
                        proof {
                            assert(false);
                        }
                        return acts;
                    },
                };
                match reg.lookup(user.as_str()) {
                    Some(_handle) => {
                        let envelope = VisionEnvelope {
                            kind: String::from_str("vision"),
                            frame: f.data,
                            timestamp: f.timestamp,
                        };
                        acts.push(RelayAction::Deliver { user_id: user.clone(), envelope });
                    },
                    None => {},
                }
            },
            StreamEvent::Other => {},
            StreamEvent::ReadError => {
                self.phase = RelayPhase::Idle;
                self.user = None;
            },
        }
        acts
    }

    /// Requests a cooperative stop: the flag clears; the session loop
    /// observes it on its next iteration and exits.
    pub fn stop(&mut self)
        ensures
            final(self).wf(),
            !final(self).is_running(),
    {
        self.phase = RelayPhase::Idle;
        self.user = None;
        self.attempts = 0;
    }
}

/// The state and answer of a start request, as `try_start` computes
/// them; `try_start` ensures it follows this transition.
pub closed spec fn spec_try_start(s: CDPStream, user_id: String) -> (CDPStream, bool) {
    if s.is_running() {
        (s, false)
    } else {
        (
            CDPStream {
                phase: RelayPhase::Discovering,
                user: Some(user_id),
                attempts: 0u32,
            },
            true,
        )
    }
}

/// A start request while a session runs is a no-op: the running session
/// is left untouched and nothing new starts.
pub proof fn lemma_start_while_running_is_noop(s: CDPStream, user_id: String)
    requires
        s.is_running(),
    ensures
        spec_try_start(s, user_id).0 == s,
        !spec_try_start(s, user_id).1,
{
}

/// At most one capture session is active process-wide: of two start
/// requests in a row, at most one actually starts a session, since the
/// first to start leaves the flag set against the second.
pub proof fn lemma_at_most_one_start(s: CDPStream, u1: String, u2: String)
    ensures
        !(spec_try_start(s, u1).1 && spec_try_start(spec_try_start(s, u1).0, u2).1),
{
}

} // verus!
