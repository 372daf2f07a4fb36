//! The probe pipeline of one relay, as a state machine: the caller performs
//! each action and reports back what came of it.

use vstd::prelude::*;
use crate::address::{
    AddressClass,
    ProxyEndpoint,
    class_of,
    classify_address,
    connection_timeout_secs,
    proxy_for,
    timeout_of,
};
use crate::record::{Outcome, RelayRecord, Write, lemma_writes_make_round, writes_of, written_all};

verus! {

/// Why a pipeline ended without completing.
#[derive(Clone, Copy, Debug, PartialEq, Eq, Structural)]
pub enum ProbeError {
    /// The relay's address does not parse.
    AddressParse,
    /// The relay could not be connected within its deadline.
    Connection,
    /// The store refused a write.
    Persistence,
}

/// Where a pipeline stands.
#[derive(Clone, Copy, Debug, PartialEq, Eq, Structural)]
pub enum Phase {
    /// Waiting for a concurrency slot.
    Pending,
    /// Opening the session.
    Connecting,
    /// Storing a successful connection.
    RecordingReachable,
    /// Storing a failed connection.
    RecordingUnreachable,
    /// Fetching the info document.
    FetchingInfo,
    /// Storing the info document.
    RecordingInfo,
    /// Running the sync probe.
    ProbingSync,
    /// Storing the sync outcome.
    RecordingSync,
    /// All probes ran and were stored.
    Done,
    /// The connection failed and was stored.
    Unreachable,
    /// A write failed.
    Failed,
}

/// What the caller reports.
#[derive(Clone, Debug)]
pub enum Event {
    SlotAcquired,
    Connected { now: u64 },
    ConnectFailed { now: u64 },
    InfoFetched { document: Option<String> },
    SyncFinished { supported: bool },
    Persisted,
    PersistFailed,
}

/// What the caller is to do next.
#[derive(Clone, Debug)]
pub enum Action {
    /// Open a session within the deadline, through the proxy if one is given.
    Connect { timeout_secs: u64, proxy: Option<ProxyEndpoint> },
    /// Perform this write.
    Persist(Write),
    /// Fetch the info document within the deadline.
    FetchInfo { timeout_secs: u64, proxy: Option<ProxyEndpoint> },
    /// Run the minimal sync exchange on the session.
    ProbeSync,
    /// Close the session and free the slot: the pipeline has ended.
    Release,
    /// The event does not apply here: nothing to do.
    Wait,
}

/// The pipeline of one relay.
#[derive(Clone, Copy, Debug)]
pub struct Pipeline {
    pub id: i64,
    pub class: AddressClass,
    pub phase: Phase,
}

pub open spec fn proxy_of(class: AddressClass) -> Option<ProxyEndpoint> {
    match class {
        AddressClass::Standard => None,
        AddressClass::AnonymityRouted => Some(
            ProxyEndpoint { a: 127, b: 0, c: 0, d: 1, port: crate::address::PROXY_PORT },
        ),
    }
}

/// Phases in which the pipeline holds an open session.
pub open spec fn holds_session(phase: Phase) -> bool {
    match phase {
        Phase::Pending | Phase::Done | Phase::Unreachable | Phase::Failed => false,
        _ => true,
    }
}

pub open spec fn is_terminal(phase: Phase) -> bool {
    phase == Phase::Done || phase == Phase::Unreachable || phase == Phase::Failed
}

/// Phases after a failed connection, which no capability probe follows.
pub open spec fn after_failed_connection(phase: Phase) -> bool {
    phase == Phase::RecordingUnreachable || phase == Phase::Unreachable || phase == Phase::Failed
}

/// Actions that probe or store a capability.
pub open spec fn is_capability_action(a: Action) -> bool {
    match a {
        Action::FetchInfo { .. } | Action::ProbeSync => true,
        Action::Persist(Write::InfoDocument { .. }) => true,
        Action::Persist(Write::SyncSupport { .. }) => true,
        _ => false,
    }
}

impl Pipeline {
    /// The pipeline after `e`, and what the caller is to do.
    pub open spec fn next(self, e: Event) -> (Pipeline, Action) {
        let go = |phase: Phase, a: Action| (Pipeline { phase, ..self }, a);
        match (self.phase, e) {
            (Phase::Pending, Event::SlotAcquired) => go(
                Phase::Connecting,
                Action::Connect { timeout_secs: timeout_of(self.class), proxy: proxy_of(self.class) },
            ),
            (Phase::Connecting, Event::Connected { now }) => go(
                Phase::RecordingReachable,
                Action::Persist(Write::Connection { id: self.id, checked_at: now, reachable: true }),
            ),
            (Phase::Connecting, Event::ConnectFailed { now }) => go(
                Phase::RecordingUnreachable,
                Action::Persist(Write::Connection { id: self.id, checked_at: now, reachable: false }),
            ),
            (Phase::RecordingUnreachable, Event::Persisted) => go(Phase::Unreachable, Action::Release),
            (Phase::RecordingReachable, Event::Persisted) => go(
                Phase::FetchingInfo,
                Action::FetchInfo { timeout_secs: timeout_of(self.class), proxy: proxy_of(self.class) },
            ),
            (Phase::FetchingInfo, Event::InfoFetched { document }) => match document {
                Some(d) => go(
                    Phase::RecordingInfo,
                    Action::Persist(Write::InfoDocument { id: self.id, document: d }),
                ),
                None => go(Phase::ProbingSync, Action::ProbeSync),
            },
            (Phase::RecordingInfo, Event::Persisted) => go(Phase::ProbingSync, Action::ProbeSync),
            (Phase::ProbingSync, Event::SyncFinished { supported }) => go(
                Phase::RecordingSync,
                Action::Persist(Write::SyncSupport { id: self.id, supported }),
            ),
            (Phase::RecordingSync, Event::Persisted) => go(Phase::Done, Action::Release),
            (Phase::RecordingReachable, Event::PersistFailed)
            | (Phase::RecordingUnreachable, Event::PersistFailed)
            | (Phase::RecordingInfo, Event::PersistFailed)
            | (Phase::RecordingSync, Event::PersistFailed) => go(Phase::Failed, Action::Release),
            _ => (self, Action::Wait),
        }
    }

    /// A pending pipeline for relay `id` at address `url`; an address that
    /// does not parse ends it before any probe.
    pub fn start(id: i64, url: &str) -> (r: Result<Pipeline, ProbeError>)
        ensures
            class_of(url@) is None ==> r == Err::<Pipeline, ProbeError>(ProbeError::AddressParse),
            class_of(url@) matches Some(c) ==> r == Ok::<Pipeline, ProbeError>(
                Pipeline { id, class: c, phase: Phase::Pending },
            ),
    {
        match classify_address(url) {
            Some(class) => Ok(Pipeline { id, class, phase: Phase::Pending }),
            None => Err(ProbeError::AddressParse),
        }
    }

    /// Takes in what came of the last action and says what to do next.
    pub fn step(&mut self, e: Event) -> (r: Action)
        ensures
            (*final(self), r) == old(self).next(e),
    {
        let id = self.id;
        match (self.phase, e) {
            (Phase::Pending, Event::SlotAcquired) => {
                self.phase = Phase::Connecting;
                Action::Connect {
                    timeout_secs: connection_timeout_secs(self.class),
                    proxy: proxy_for(self.class),
                }
            },
            (Phase::Connecting, Event::Connected { now }) => {
                self.phase = Phase::RecordingReachable;
                Action::Persist(Write::Connection { id, checked_at: now, reachable: true })
            },
            (Phase::Connecting, Event::ConnectFailed { now }) => {
                self.phase = Phase::RecordingUnreachable;
                Action::Persist(Write::Connection { id, checked_at: now, reachable: false })
            },
            (Phase::RecordingUnreachable, Event::Persisted) => {
                self.phase = Phase::Unreachable;
                Action::Release
            },
            (Phase::RecordingReachable, Event::Persisted) => {
                self.phase = Phase::FetchingInfo;
                Action::FetchInfo {
                    timeout_secs: connection_timeout_secs(self.class),
                    proxy: proxy_for(self.class),
                }
            },
            (Phase::FetchingInfo, Event::InfoFetched { document }) => match document {
                Some(d) => {
                    self.phase = Phase::RecordingInfo;
                    Action::Persist(Write::InfoDocument { id, document: d })
                },
                None => {
                    self.phase = Phase::ProbingSync;
                    Action::ProbeSync
                },
            },
            (Phase::RecordingInfo, Event::Persisted) => {
                self.phase = Phase::ProbingSync;
                Action::ProbeSync
            },
            (Phase::ProbingSync, Event::SyncFinished { supported }) => {
                self.phase = Phase::RecordingSync;
                Action::Persist(Write::SyncSupport { id, supported })
            },
            (Phase::RecordingSync, Event::Persisted) => {
                self.phase = Phase::Done;
                Action::Release
            },
            (Phase::RecordingReachable, Event::PersistFailed)
            | (Phase::RecordingUnreachable, Event::PersistFailed)
            | (Phase::RecordingInfo, Event::PersistFailed)
            | (Phase::RecordingSync, Event::PersistFailed) => {
                self.phase = Phase::Failed;
                Action::Release
            },
            _ => Action::Wait,
        }
    }

    /// How the pipeline ended: `None` while it runs, `Ok` when every probe
    /// ran and was stored, the error otherwise.
    pub fn result(&self) -> (r: Option<Result<(), ProbeError>>)
        ensures
            r is None <==> !is_terminal(self.phase),
            self.phase == Phase::Done ==> r == Some(Ok::<(), ProbeError>(())),
            self.phase == Phase::Unreachable ==> r == Some(Err::<(), ProbeError>(ProbeError::Connection)),
            self.phase == Phase::Failed ==> r == Some(Err::<(), ProbeError>(ProbeError::Persistence)),
    {
        match self.phase {
            Phase::Done => Some(Ok(())),
            Phase::Unreachable => Some(Err(ProbeError::Connection)),
            Phase::Failed => Some(Err(ProbeError::Persistence)),
            _ => None,
        }
    }
}

/// The pipeline after the events `es` in order, and the actions it asked for.
pub open spec fn run(p: Pipeline, es: Seq<Event>) -> (Pipeline, Seq<Action>)
    decreases es.len(),
{
    if es.len() == 0 {
        (p, Seq::empty())
    } else {
        let (q, a) = p.next(es[0]);
        let (r, rest) = run(q, es.drop_first());
        (r, seq![a] + rest)
    }
}

/// The writes among `actions`, in order.
pub open spec fn persisted(actions: Seq<Action>) -> Seq<Write>
    decreases actions.len(),
{
    if actions.len() == 0 {
        Seq::empty()
    } else {
        let head = match actions[0] {
            Action::Persist(w) => seq![w],
            _ => Seq::empty(),
        };
        head + persisted(actions.drop_first())
    }
}

/// The events of a round in which every write succeeds and the relay
/// showed `outcome` at time `now`.
pub open spec fn round_events(now: u64, outcome: Outcome) -> Seq<Event> {
    match outcome {
        Outcome::Unreachable => seq![Event::SlotAcquired, Event::ConnectFailed { now }, Event::Persisted],
        Outcome::Reachable { info_document, sync_supported } => {
            let head = seq![
                Event::SlotAcquired,
                Event::Connected { now },
                Event::Persisted,
                Event::InfoFetched { document: info_document },
            ];
            let stored = if info_document is Some {
                seq![Event::Persisted]
            } else {
                Seq::empty()
            };
            head + stored + seq![Event::SyncFinished { supported: sync_supported }, Event::Persisted]
        },
    }
}

/// A session is opened only when a slot has been acquired, released exactly
/// when a pipeline that holds one ends, and an ended pipeline ignores every
/// further event.
pub proof fn lemma_release_on_every_exit(p: Pipeline, e: Event)
    ensures
        !holds_session(p.phase) && holds_session(p.next(e).0.phase) ==> p.phase == Phase::Pending
            && e is SlotAcquired && p.next(e).1 is Connect,
        holds_session(p.phase) && is_terminal(p.next(e).0.phase) ==> p.next(e).1 is Release,
        p.next(e).1 is Release ==> holds_session(p.phase) && is_terminal(p.next(e).0.phase),
        is_terminal(p.phase) ==> p.next(e).0 == p && p.next(e).1 is Wait,
        p.next(e).0.id == p.id && p.next(e).0.class == p.class,
{
}

/// Once the connection has failed, no event leads to an info or sync probe
/// or to a write of a capability field.
pub proof fn lemma_no_capability_after_failed_connection(p: Pipeline, es: Seq<Event>)
    requires
        after_failed_connection(p.phase),
    ensures
        after_failed_connection(run(p, es).0.phase),
        forall|i: int| 0 <= i < run(p, es).1.len() ==> !is_capability_action(#[trigger] run(p, es).1[i]),
    decreases es.len(),
{
    if es.len() > 0 {
        let (q, a) = p.next(es[0]);
        lemma_no_capability_after_failed_connection(q, es.drop_first());
        let rest = run(q, es.drop_first()).1;
        assert forall|i: int| 0 <= i < run(p, es).1.len() implies !is_capability_action(
            #[trigger] run(p, es).1[i],
        ) by {
            if i > 0 {
                assert(run(p, es).1[i] == rest[i - 1]);
            }
        }
    }
}

/// A failed connection puts the pipeline where no capability probe follows.
pub proof fn lemma_failed_connection_closes(p: Pipeline, now: u64)
    requires
        p.phase == Phase::Connecting,
    ensures
        after_failed_connection(p.next(Event::ConnectFailed { now }).0.phase),
{
}

/// A round in which every write succeeds stores exactly the writes that
/// make the relay's record of that round, ends in the phase of its outcome,
/// and releases its session last.
pub proof fn lemma_round_writes(p: Pipeline, now: u64, outcome: Outcome)
    requires
        p.phase == Phase::Pending,
    ensures
        persisted(run(p, round_events(now, outcome)).1) == writes_of(p.id, now, outcome),
        run(p, round_events(now, outcome)).0.phase == (match outcome {
            Outcome::Unreachable => Phase::Unreachable,
            Outcome::Reachable { .. } => Phase::Done,
        }),
        run(p, round_events(now, outcome)).1.last() is Release,
{
    reveal_with_fuel(run, 8);
    reveal_with_fuel(persisted, 8);
}

/// A round of the pipeline, with every write stored in the relay's row,
/// leaves that row as the record of the round says: refreshed `last_check`,
/// the connection outcome, and capability fields written only when the relay
/// was reachable.
pub proof fn lemma_round_record(p: Pipeline, r: RelayRecord, now: u64, outcome: Outcome)
    requires
        p.phase == Phase::Pending,
        p.id == r.id,
    ensures
        written_all(r, persisted(run(p, round_events(now, outcome)).1)) == r.probed(now, outcome),
{
    lemma_round_writes(p, now, outcome);
    lemma_writes_make_round(r, now, outcome);
}

} // verus!
