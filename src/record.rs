//! The stored state of a relay and the writes that change it.

use vstd::prelude::*;

verus! {

/// What is stored of one relay.
#[derive(Clone, Debug)]
pub struct RelayRecord {
    /// Opaque key of the row.
    pub id: i64,
    /// Address, canonical form without a trailing slash.
    pub url: String,
    /// Epoch seconds of the most recent probe, if any.
    pub last_check: Option<u64>,
    /// Whether the most recent connection probe succeeded.
    pub reachable: Option<bool>,
    /// Serialized info document of the latest successful fetch.
    pub info_document: Option<String>,
    /// Whether the latest sync probe was accepted.
    pub supports_sync: Option<bool>,
}

/// What one probe round observed of a relay.
#[derive(Clone, Debug)]
pub enum Outcome {
    /// The connection probe failed.
    Unreachable,
    /// The connection probe succeeded; the info document, if it was fetched,
    /// and whether the sync exchange completed.
    Reachable { info_document: Option<String>, sync_supported: bool },
}

/// One persistence operation; each touches disjoint columns of one row.
#[derive(Clone, Debug)]
pub enum Write {
    /// Connection outcome and time of the check.
    Connection { id: i64, checked_at: u64, reachable: bool },
    /// A fetched info document.
    InfoDocument { id: i64, document: String },
    /// Outcome of the sync probe.
    SyncSupport { id: i64, supported: bool },
}

impl Write {
    pub open spec fn target(self) -> i64 {
        match self {
            Write::Connection { id, .. } => id,
            Write::InfoDocument { id, .. } => id,
            Write::SyncSupport { id, .. } => id,
        }
    }
}

impl RelayRecord {
    /// A relay that was never probed.
    pub open spec fn fresh(id: i64, url: String) -> RelayRecord {
        RelayRecord {
            id,
            url,
            last_check: None,
            reachable: None,
            info_document: None,
            supports_sync: None,
        }
    }

    /// The record after `w`; a write for another row leaves it as it is.
    pub open spec fn written(self, w: Write) -> RelayRecord {
        if w.target() != self.id {
            self
        } else {
            match w {
                Write::Connection { checked_at, reachable, .. } => RelayRecord {
                    last_check: Some(checked_at),
                    reachable: Some(reachable),
                    ..self
                },
                Write::InfoDocument { document, .. } => RelayRecord {
                    info_document: Some(document),
                    ..self
                },
                Write::SyncSupport { supported, .. } => RelayRecord {
                    supports_sync: Some(supported),
                    ..self
                },
            }
        }
    }

    /// The record after a probe round at time `now` that observed `outcome`.
    pub open spec fn probed(self, now: u64, outcome: Outcome) -> RelayRecord {
        match outcome {
            Outcome::Unreachable => RelayRecord {
                last_check: Some(now),
                reachable: Some(false),
                ..self
            },
            Outcome::Reachable { info_document, sync_supported } => RelayRecord {
                last_check: Some(now),
                reachable: Some(true),
                info_document: match info_document {
                    Some(d) => Some(d),
                    None => self.info_document,
                },
                supports_sync: Some(sync_supported),
                ..self
            },
        }
    }

    /// A relay that was never probed.
    pub fn new(id: i64, url: String) -> (r: RelayRecord)
        ensures
            r == RelayRecord::fresh(id, url),
    {
        RelayRecord {
            id,
            url,
            last_check: None,
            reachable: None,
            info_document: None,
            supports_sync: None,
        }
    }

    /// Applies one write to this record.
    pub fn apply(&mut self, w: Write)
        ensures
            *final(self) == old(self).written(w),
    {
        let same: bool = match &w {
            Write::Connection { id, .. } => *id == self.id,
            Write::InfoDocument { id, .. } => *id == self.id,
            Write::SyncSupport { id, .. } => *id == self.id,
        };
        if same {
            match w {
                Write::Connection { checked_at, reachable, .. } => {
                    self.last_check = Some(checked_at);
                    self.reachable = Some(reachable);
                },
                Write::InfoDocument { document, .. } => {
                    self.info_document = Some(document);
                },
                Write::SyncSupport { supported, .. } => {
                    self.supports_sync = Some(supported);
                },
            }
        }
    }

    /// The writes a probe round makes for this relay, in the order they are
    /// made: the connection outcome, then, for a reachable relay, the info
    /// document if one was fetched, and the sync outcome.
    pub fn writes_for(&self, now: u64, outcome: &Outcome) -> (r: Vec<Write>)
        ensures
            r@ == writes_of(self.id, now, *outcome),
    {
        let mut v: Vec<Write> = Vec::new();
        match outcome {
            Outcome::Unreachable => {
                v.push(Write::Connection { id: self.id, checked_at: now, reachable: false });
            },
            Outcome::Reachable { info_document, sync_supported } => {
                v.push(Write::Connection { id: self.id, checked_at: now, reachable: true });
                match info_document {
                    Some(d) => {
                        v.push(Write::InfoDocument { id: self.id, document: d.clone() });
                    },
                    None => {},
                }
                v.push(Write::SyncSupport { id: self.id, supported: *sync_supported });
            },
        }
        v
    }

    /// Records a probe round at time `now` that observed `outcome`.
    pub fn record_outcome(&mut self, now: u64, outcome: Outcome)
        ensures
            *final(self) == old(self).probed(now, outcome),
    {
        match outcome {
            Outcome::Unreachable => {
                self.apply(Write::Connection { id: self.id, checked_at: now, reachable: false });
            },
            Outcome::Reachable { info_document, sync_supported } => {
                self.apply(Write::Connection { id: self.id, checked_at: now, reachable: true });
                match info_document {
                    Some(d) => {
                        self.apply(Write::InfoDocument { id: self.id, document: d });
                    },
                    None => {},
                }
                self.apply(Write::SyncSupport { id: self.id, supported: sync_supported });
            },
        }
    }
}

/// Seconds after a probe before a relay is due again: seven days.
pub const STALENESS_WINDOW_SECS: u64 = 604800;

/// Whether a relay last probed at `last_check` is due at time `now`: never
/// probed, or probed before `now` minus the staleness window.
pub open spec fn due(last_check: Option<u64>, now: u64) -> bool {
    match last_check {
        None => true,
        Some(t) => t + STALENESS_WINDOW_SECS < now,
    }
}

/// The earliest `last_check` that keeps a relay from being due at `now`,
/// zero when `now` is within the first window.
pub fn staleness_cutoff(now: u64) -> (r: u64)
    ensures
        now >= STALENESS_WINDOW_SECS ==> r == now - STALENESS_WINDOW_SECS,
        now < STALENESS_WINDOW_SECS ==> r == 0,
        forall|t: u64| #![auto] (t < r) == due(Some(t), now),
{
    now.saturating_sub(STALENESS_WINDOW_SECS)
}

impl RelayRecord {
    /// Whether this relay is to be probed at time `now`.
    pub fn is_due(&self, now: u64) -> (r: bool)
        ensures
            r == due(self.last_check, now),
    {
        match self.last_check {
            None => true,
            Some(t) => t < staleness_cutoff(now),
        }
    }
}

/// The writes of one probe round on row `id`.
pub open spec fn writes_of(id: i64, now: u64, outcome: Outcome) -> Seq<Write> {
    match outcome {
        Outcome::Unreachable => seq![Write::Connection { id, checked_at: now, reachable: false }],
        Outcome::Reachable { info_document, sync_supported } => {
            let connected = seq![Write::Connection { id, checked_at: now, reachable: true }];
            let info = match info_document {
                Some(d) => seq![Write::InfoDocument { id, document: d }],
                None => Seq::empty(),
            };
            connected + info + seq![Write::SyncSupport { id, supported: sync_supported }]
        },
    }
}

/// The record after `ws`, applied in order.
pub open spec fn written_all(r: RelayRecord, ws: Seq<Write>) -> RelayRecord
    decreases ws.len(),
{
    if ws.len() == 0 {
        r
    } else {
        written_all(r.written(ws[0]), ws.drop_first())
    }
}

/// Every probe refreshes `last_check` to the time of the probe, whatever it
/// observed; with a clock that does not run backwards it never decreases.
pub proof fn lemma_last_check_refreshed(r: RelayRecord, now: u64, outcome: Outcome)
    requires
        r.last_check matches Some(t) ==> t <= now,
    ensures
        r.probed(now, outcome).last_check == Some(now),
        r.last_check matches Some(t) ==> t <= r.probed(now, outcome).last_check->Some_0,
{
}

/// A failed connection probe marks the relay unreachable and leaves both
/// capability fields as they were.
pub proof fn lemma_unreachable_keeps_capabilities(r: RelayRecord, now: u64)
    ensures
        r.probed(now, Outcome::Unreachable).reachable == Some(false),
        r.probed(now, Outcome::Unreachable).info_document == r.info_document,
        r.probed(now, Outcome::Unreachable).supports_sync == r.supports_sync,
{
}

/// A successful connection probe marks the relay reachable; the info
/// document is replaced when one was fetched and kept otherwise, and the sync
/// outcome is stored.
pub proof fn lemma_reachable_updates_capabilities(
    r: RelayRecord,
    now: u64,
    info_document: Option<String>,
    sync_supported: bool,
)
    ensures
        ({
            let p = r.probed(now, Outcome::Reachable { info_document, sync_supported });
            &&& p.reachable == Some(true)
            &&& info_document matches Some(d) ==> p.info_document == Some(d)
            &&& info_document is None ==> p.info_document == r.info_document
            &&& p.supports_sync == Some(sync_supported)
        }),
{
}

/// Probing an unreachable relay twice in a row leaves it unreachable after
/// each round and never touches its capability fields.
pub proof fn lemma_unreachable_twice(r: RelayRecord, first: u64, second: u64)
    ensures
        r.probed(first, Outcome::Unreachable).reachable == Some(false),
        r.probed(first, Outcome::Unreachable).probed(second, Outcome::Unreachable).reachable
            == Some(false),
        r.probed(first, Outcome::Unreachable).probed(second, Outcome::Unreachable).info_document
            == r.info_document,
        r.probed(first, Outcome::Unreachable).probed(second, Outcome::Unreachable).supports_sync
            == r.supports_sync,
{
}

/// The independent writes of a round, applied in order to the relay's row,
/// give exactly the record of that round: no field is left half written.
pub proof fn lemma_writes_make_round(r: RelayRecord, now: u64, outcome: Outcome)
    ensures
        written_all(r, writes_of(r.id, now, outcome)) == r.probed(now, outcome),
{
    let ws = writes_of(r.id, now, outcome);
    reveal_with_fuel(written_all, 4);
    match outcome {
        Outcome::Unreachable => {
            assert(ws.drop_first() =~= Seq::<Write>::empty());
        },
        Outcome::Reachable { info_document, sync_supported } => {
            let c = Write::Connection { id: r.id, checked_at: now, reachable: true };
            let s = Write::SyncSupport { id: r.id, supported: sync_supported };
            match info_document {
                Some(d) => {
                    let i = Write::InfoDocument { id: r.id, document: d };
                    assert(ws =~= seq![c, i, s]);
                    assert(seq![c, i, s].drop_first() =~= seq![i, s]);
                    assert(seq![i, s].drop_first() =~= seq![s]);
                    assert(seq![s].drop_first() =~= Seq::<Write>::empty());
                },
                None => {
                    assert(ws =~= seq![c, s]);
                    assert(seq![c, s].drop_first() =~= seq![s]);
                    assert(seq![s].drop_first() =~= Seq::<Write>::empty());
                },
            }
        },
    }
}

} // verus!
