//! The daemon session bridge, as a verified state machine. One webhook
//! call opens one session: connect, send the daemon's secret, check
//! its acknowledgement, sync state, provision the job's queue group if
//! missing, submit the job, close. The machine decides; the
//! surrounding application performs each emitted action on the real
//! connection and feeds the outcome back as the next event.

use vstd::prelude::*;

use crate::errors::WebhookError;
use crate::request::RenderedJob;
use crate::strutil::str_eq;

verus! {

/// How far the session has come; each state waits for one event.
#[derive(Debug)]
pub enum SessionState {
    /// Connecting; awaiting the transport's outcome.
    Disconnected,
    /// Connected and the secret sent; awaiting the daemon's
    /// acknowledgement frame.
    SecretSent,
    /// The acknowledgement matched and status was requested; awaiting
    /// the status response.
    HelloReceived,
    /// Status received, the job's group was missing, and an add-group
    /// request was sent; awaiting its acknowledgement.
    StateSynced { groups: Vec<String> },
    /// The job's group exists and the add-job request was sent;
    /// awaiting its response.
    GroupsProvisioned,
    /// The job is enqueued; closing the connection.
    Submitted,
    /// The session is over and the connection closed.
    Done,
    /// The session failed; the connection is torn down and nothing
    /// further is sent.
    Failed { error: WebhookError },
}

/// What the driver reports back to the machine.
#[derive(Debug)]
pub enum SessionEvent {
    /// The transport connected.
    Connected,
    /// The transport failed (could not connect, or broke mid-session).
    TransportFailed { detail: String },
    /// A raw frame arrived (the handshake acknowledgement).
    Frame { payload: Vec<u8> },
    /// The status response arrived, with the daemon's group names.
    Status { groups: Vec<String> },
    /// The add-group request was acknowledged.
    GroupAdded,
    /// The add-job request was answered.
    JobAdded,
    /// The daemon answered with a frame the protocol does not allow
    /// here.
    Protocol { detail: String },
    /// The connection was closed.
    Closed,
}

/// What the driver must do next.
#[derive(Clone, Copy, Debug, PartialEq, Eq, Structural)]
pub enum SessionAction {
    /// Open the transport connection.
    Connect,
    /// Send the secret frame, then read one frame.
    SendSecret,
    /// Send a status request, then read its response.
    RequestStatus,
    /// Send an add-group request for the job's group, then read its
    /// acknowledgement.
    AddGroup,
    /// Send the add-job request carrying the session's job, then read
    /// its response.
    AddJob,
    /// Close the connection.
    Close,
    /// Nothing further: the session is over.
    Stop,
}

/// One daemon session: the expected acknowledgement payload, the job to
/// submit, and the current state.
#[derive(Debug)]
pub struct Session {
    pub expected_ack: Vec<u8>,
    pub job: RenderedJob,
    pub state: SessionState,
}

/// Does the group list contain the job's target group?
pub open spec fn spec_has_group(groups: Seq<String>, group: Seq<char>) -> bool {
    exists|i: int| 0 <= i < groups.len() && groups[i]@ == group
}

/// The transition relation of the session machine: from state `s` under
/// event `e` to state `s2`, emitting `a`. A mismatched acknowledgement
/// is fatal (the daemon is unusable: unreachable in effect); an
/// unexpected frame later is a protocol violation; both absorb into
/// `Failed`, which never emits anything again.
pub open spec fn spec_step(s: Session, e: SessionEvent, s2: Session, a: SessionAction) -> bool {
    &&& s2.expected_ack == s.expected_ack
    &&& s2.job == s.job
    &&& match s.state {
        SessionState::Disconnected => match e {
            SessionEvent::Connected => s2.state is SecretSent && a == SessionAction::SendSecret,
            SessionEvent::TransportFailed { detail } => (s2.state matches SessionState::Failed {
                error: WebhookError::DaemonUnreachable { detail: d },
            } && d == detail) && a == SessionAction::Stop,
            _ => spec_protocol_failure(s2.state) && a == SessionAction::Stop,
        },
        SessionState::SecretSent => match e {
            SessionEvent::Frame { payload } => if payload@ == s.expected_ack@ {
                s2.state is HelloReceived && a == SessionAction::RequestStatus
            } else {
                (s2.state matches SessionState::Failed {
                    error: WebhookError::DaemonUnreachable { detail: d },
                } && d@ == "daemon handshake ack mismatch"@) && a == SessionAction::Stop
            },
            SessionEvent::TransportFailed { detail } => (s2.state matches SessionState::Failed {
                error: WebhookError::DaemonUnreachable { detail: d },
            } && d == detail) && a == SessionAction::Stop,
            _ => spec_protocol_failure(s2.state) && a == SessionAction::Stop,
        },
        SessionState::HelloReceived => match e {
            SessionEvent::Status { groups } => if spec_has_group(groups@, s.job.group@) {
                s2.state is GroupsProvisioned && a == SessionAction::AddJob
            } else {
                (s2.state matches SessionState::StateSynced { groups: g } && g == groups) && a
                    == SessionAction::AddGroup
            },
            _ => spec_protocol_failure(s2.state) && a == SessionAction::Stop,
        },
        SessionState::StateSynced { .. } => match e {
            SessionEvent::GroupAdded => s2.state is GroupsProvisioned && a == SessionAction::AddJob,
            _ => spec_protocol_failure(s2.state) && a == SessionAction::Stop,
        },
        SessionState::GroupsProvisioned => match e {
            SessionEvent::JobAdded => s2.state is Submitted && a == SessionAction::Close,
            _ => spec_protocol_failure(s2.state) && a == SessionAction::Stop,
        },
        SessionState::Submitted => match e {
            SessionEvent::Closed => s2.state is Done && a == SessionAction::Stop,
            _ => spec_protocol_failure(s2.state) && a == SessionAction::Stop,
        },
        SessionState::Done => s2.state is Done && a == SessionAction::Stop,
        SessionState::Failed { .. } => s2.state == s.state && a == SessionAction::Stop,
    }
}

/// The failure an out-of-order or unexpected frame leads to.
pub open spec fn spec_protocol_failure(s2: SessionState) -> bool {
    s2 matches SessionState::Failed { error: WebhookError::DaemonProtocol { .. } }
}

/// Byte-for-byte equality of two byte vectors.
fn bytes_eq(a: &Vec<u8>, b: &Vec<u8>) -> (r: bool)
    ensures
        r == (a@ == b@),
{
    if a.len() != b.len() {
        return false;
    }
    let n = a.len();
    for i in 0..n
        invariant
            n == a@.len(),
            n == b@.len(),
            forall|j: int| 0 <= j < i ==> a@[j] == b@[j],
    {
        if a[i] != b[i] {
            return false;
        }
    }
    proof {
        assert(a@ =~= b@);
    }
    true
}

/// Does the group list contain this group name?
fn has_group(groups: &Vec<String>, group: &str) -> (r: bool)
    ensures
        r == spec_has_group(groups@, group@),
{
    let n = groups.len();
    for i in 0..n
        invariant
            n == groups@.len(),
            forall|j: int| 0 <= j < i ==> groups@[j]@ != group@,
    {
        if str_eq(groups[i].as_str(), group) {
            return true;
        }
    }
    false
}

impl Session {
    /// Open a fresh session for one job: nothing shared with any other
    /// call, the group set to be fetched anew.
    pub fn start(expected_ack: Vec<u8>, job: RenderedJob) -> (r: (Session, SessionAction))
        ensures
            r.0.state is Disconnected,
            r.0.expected_ack == expected_ack,
            r.0.job == job,
            r.1 == SessionAction::Connect,
    {
        (Session { expected_ack, job, state: SessionState::Disconnected }, SessionAction::Connect)
    }

    /// Advance the machine by one event, yielding the next state and
    /// the action the driver must perform.
    pub fn step(self, event: SessionEvent) -> (r: (Session, SessionAction))
        ensures
            spec_step(self, event, r.0, r.1),
    {
        let Session { expected_ack, job, state } = self;
        match state {
            SessionState::Disconnected => match event {
                SessionEvent::Connected => (
                    Session { expected_ack, job, state: SessionState::SecretSent },
                    SessionAction::SendSecret,
                ),
                SessionEvent::TransportFailed { detail } => (
                    Session {
                        expected_ack,
                        job,
                        state: SessionState::Failed {
                            error: WebhookError::DaemonUnreachable { detail },
                        },
                    },
                    SessionAction::Stop,
                ),
                _ => (
                    Session {
                        expected_ack,
                        job,
                        state: SessionState::Failed {
                            error: WebhookError::DaemonProtocol {
                                detail: String::from_str("unexpected event before connect"),
                            },
                        },
                    },
                    SessionAction::Stop,
                ),
            },
            SessionState::SecretSent => match event {
                SessionEvent::Frame { payload } => {
                    if bytes_eq(&payload, &expected_ack) {
                        (
                            Session { expected_ack, job, state: SessionState::HelloReceived },
                            SessionAction::RequestStatus,
                        )
                    } else {
                        (
                            Session {
                                expected_ack,
                                job,
                                state: SessionState::Failed {
                                    error: WebhookError::DaemonUnreachable {
                                        detail: String::from_str("daemon handshake ack mismatch"),
                                    },
                                },
                            },
                            SessionAction::Stop,
                        )
                    }
                },
                SessionEvent::TransportFailed { detail } => (
                    Session {
                        expected_ack,
                        job,
                        state: SessionState::Failed {
                            error: WebhookError::DaemonUnreachable { detail },
                        },
                    },
                    SessionAction::Stop,
                ),
                _ => (
                    Session {
                        expected_ack,
                        job,
                        state: SessionState::Failed {
                            error: WebhookError::DaemonProtocol {
                                detail: String::from_str("unexpected frame during handshake"),
                            },
                        },
                    },
                    SessionAction::Stop,
                ),
            },
            SessionState::HelloReceived => match event {
                SessionEvent::Status { groups } => {
                    if has_group(&groups, job.group.as_str()) {
                        (
                            Session { expected_ack, job, state: SessionState::GroupsProvisioned },
                            SessionAction::AddJob,
                        )
                    } else {
                        (
                            Session { expected_ack, job, state: SessionState::StateSynced { groups } },
                            SessionAction::AddGroup,
                        )
                    }
                },
                _ => (
                    Session {
                        expected_ack,
                        job,
                        state: SessionState::Failed {
                            error: WebhookError::DaemonProtocol {
                                detail: String::from_str("expected a status response"),
                            },
                        },
                    },
                    SessionAction::Stop,
                ),
            },
            SessionState::StateSynced { .. } => match event {
                SessionEvent::GroupAdded => (
                    Session { expected_ack, job, state: SessionState::GroupsProvisioned },
                    SessionAction::AddJob,
                ),
                _ => (
                    Session {
                        expected_ack,
                        job,
                        state: SessionState::Failed {
                            error: WebhookError::DaemonProtocol {
                                detail: String::from_str("expected a group acknowledgement"),
                            },
                        },
                    },
                    SessionAction::Stop,
                ),
            },
            SessionState::GroupsProvisioned => match event {
                SessionEvent::JobAdded => (
                    Session { expected_ack, job, state: SessionState::Submitted },
                    SessionAction::Close,
                ),
                _ => (
                    Session {
                        expected_ack,
                        job,
                        state: SessionState::Failed {
                            error: WebhookError::DaemonProtocol {
                                detail: String::from_str("expected an add-job response"),
                            },
                        },
                    },
                    SessionAction::Stop,
                ),
            },
            SessionState::Submitted => match event {
                SessionEvent::Closed => (
                    Session { expected_ack, job, state: SessionState::Done },
                    SessionAction::Stop,
                ),
                _ => (
                    Session {
                        expected_ack,
                        job,
                        state: SessionState::Failed {
                            error: WebhookError::DaemonProtocol {
                                detail: String::from_str("unexpected event while closing"),
                            },
                        },
                    },
                    SessionAction::Stop,
                ),
            },
            SessionState::Done => (
                Session { expected_ack, job, state: SessionState::Done },
                SessionAction::Stop,
            ),
            SessionState::Failed { error } => (
                Session { expected_ack, job, state: SessionState::Failed { error } },
                SessionAction::Stop,
            ),
        }
    }
}

/// The decision after one failed attempt to reach the daemon at
/// startup.
#[derive(Clone, Copy, Debug, PartialEq, Eq, Structural)]
pub enum RetryDecision {
    /// The five-minute budget is spent: give up and report the failure.
    GiveUp,
    /// Wait `wait` seconds, then try again carrying the new totals.
    RetryAfter { wait: u64, total_wait: u64, backoff: u64 },
}

/// Where the startup retry loop begins: nothing waited yet, five
/// seconds of backoff.
pub fn retry_start() -> (r: (u64, u64))
    ensures
        r.0 == 0,
        r.1 == 5,
{
    (0, 5)
}

/// Account one failed startup connection attempt: the current backoff
/// is added to the total; past five minutes the loop gives up, else it
/// waits the backoff and doubles it, capped at thirty seconds.
pub fn retry_after_failure(total_wait: u64, backoff: u64) -> (r: RetryDecision)
    requires
        total_wait + backoff <= u64::MAX,
    ensures
        ({
            let t = total_wait + backoff;
            if t >= 300 {
                r == RetryDecision::GiveUp
            } else {
                r == (RetryDecision::RetryAfter {
                    wait: backoff,
                    total_wait: t as u64,
                    backoff: if 2 * backoff <= 30 {
                        (2 * backoff) as u64
                    } else {
                        30u64
                    },
                })
            }
        }),
{
    let t = total_wait + backoff;
    if t >= 300 {
        RetryDecision::GiveUp
    } else {
        let next: u64 = if backoff <= 15 {
            2 * backoff
        } else {
            30
        };
        RetryDecision::RetryAfter { wait: backoff, total_wait: t, backoff: next }
    }
}

/// A run of the machine: `states[i]` and `actions[i]` are what stepping
/// on `events[i]` produced, each step related by `spec_step`.
pub open spec fn spec_valid_trace(
    init: Session,
    events: Seq<SessionEvent>,
    states: Seq<Session>,
    actions: Seq<SessionAction>,
) -> bool {
    &&& states.len() == events.len()
    &&& actions.len() == events.len()
    &&& forall|i: int|
        0 <= i < events.len() ==> spec_step(
            if i == 0 {
                init
            } else {
                states[i - 1]
            },
            events[i],
            #[trigger] states[i],
            actions[i],
        )
}

/// Whatever the run, a session submits the job it was opened for:
/// every state of a valid trace carries the start job and the start
/// acknowledgement unchanged.
pub proof fn lemma_job_preserved(
    init: Session,
    events: Seq<SessionEvent>,
    states: Seq<Session>,
    actions: Seq<SessionAction>,
    i: int,
)
    requires
        spec_valid_trace(init, events, states, actions),
        0 <= i < events.len(),
    ensures
        states[i].job == init.job,
        states[i].expected_ack == init.expected_ack,
    decreases i,
{
    if i > 0 {
        lemma_job_preserved(init, events, states, actions, i - 1);
    }
}

/// A failed session stays failed, and no trace from it ever emits an
/// add-job action.
pub proof fn lemma_failed_never_submits(
    init: Session,
    events: Seq<SessionEvent>,
    states: Seq<Session>,
    actions: Seq<SessionAction>,
    i: int,
)
    requires
        init.state is Failed,
        spec_valid_trace(init, events, states, actions),
        0 <= i < events.len(),
    ensures
        states[i].state is Failed,
        actions[i] != SessionAction::AddJob,
    decreases i,
{
    if i > 0 {
        lemma_failed_never_submits(init, events, states, actions, i - 1);
    }
}

/// A mismatched handshake acknowledgement fails the session as
/// daemon-unreachable at once, and however the run continues, no
/// add-job request is ever sent.
pub proof fn lemma_bad_ack_never_submits(
    init: Session,
    events: Seq<SessionEvent>,
    states: Seq<Session>,
    actions: Seq<SessionAction>,
)
    requires
        init.state is SecretSent,
        spec_valid_trace(init, events, states, actions),
        events.len() > 0,
        events[0] matches SessionEvent::Frame { payload } && payload@ != init.expected_ack@,
    ensures
        states[0].state matches SessionState::Failed {
            error: WebhookError::DaemonUnreachable { .. },
        },
        forall|i: int| 0 <= i < actions.len() ==> actions[i] != SessionAction::AddJob,
{
    assert forall|i: int| 0 <= i < actions.len() implies actions[i] != SessionAction::AddJob by {
        if i > 0 {
            let tail_events = events.skip(1);
            let tail_states = states.skip(1);
            let tail_actions = actions.skip(1);
            assert forall|j: int| 0 <= j < tail_events.len() implies spec_step(
                if j == 0 {
                    states[0]
                } else {
                    tail_states[j - 1]
                },
                tail_events[j],
                #[trigger] tail_states[j],
                tail_actions[j],
            ) by {
                assert(tail_states[j] == states[j + 1]);
                assert(tail_events[j] == events[j + 1]);
                assert(tail_actions[j] == actions[j + 1]);
                if j > 0 {
                    assert(tail_states[j - 1] == states[j]);
                }
            }
            lemma_failed_never_submits(states[0], tail_events, tail_states, tail_actions, i - 1);
            assert(actions[i] == tail_actions[i - 1]);
        }
    }
}

} // verus!
