use relay_probe::address::AddressClass;
use relay_probe::pipeline::{Action, Event, Phase, Pipeline, ProbeError};
use relay_probe::record::{RelayRecord, Write};
use relay_probe::scheduler::{Scheduler, MAX_CONCURRENT};

/// Feeds `events` to the pipeline and applies every write it asks for.
fn drive(p: &mut Pipeline, record: &mut RelayRecord, events: Vec<Event>) -> Vec<Action> {
    let mut actions = Vec::new();
    for e in events {
        let a = p.step(e);
        if let Action::Persist(w) = &a {
            record.apply(w.clone());
        }
        actions.push(a);
    }
    actions
}

#[test]
fn bad_address_fails_before_probing() {
    assert!(matches!(Pipeline::start(1, "nonsense"), Err(ProbeError::AddressParse)));
}

#[test]
fn reachable_relay_with_document_and_sync() {
    let mut p = Pipeline::start(1, "wss://t1.example.com").unwrap();
    assert_eq!(p.class, AddressClass::Standard);
    let mut r = RelayRecord::new(1, String::from("wss://t1.example.com"));
    let doc = String::from("{\"software\":\"impl-x\"}");
    let actions = drive(
        &mut p,
        &mut r,
        vec![
            Event::SlotAcquired,
            Event::Connected { now: 1000 },
            Event::Persisted,
            Event::InfoFetched { document: Some(doc.clone()) },
            Event::Persisted,
            Event::SyncFinished { supported: true },
            Event::Persisted,
        ],
    );
    assert!(matches!(actions[0], Action::Connect { timeout_secs: 10, proxy: None }));
    assert!(matches!(actions[2], Action::FetchInfo { timeout_secs: 10, proxy: None }));
    assert!(matches!(actions[4], Action::ProbeSync));
    assert!(matches!(actions[6], Action::Release));
    assert_eq!(p.phase, Phase::Done);
    assert_eq!(p.result(), Some(Ok(())));
    assert_eq!(r.reachable, Some(true));
    assert_eq!(r.info_document.as_deref(), Some("{\"software\":\"impl-x\"}"));
    assert_eq!(r.supports_sync, Some(true));
    assert_eq!(r.last_check, Some(1000));
}

#[test]
fn standard_connection_times_out() {
    let mut p = Pipeline::start(2, "wss://t2.example.com").unwrap();
    let mut r = RelayRecord::new(2, String::from("wss://t2.example.com"));
    let first = p.step(Event::SlotAcquired);
    assert!(matches!(first, Action::Connect { timeout_secs: 10, proxy: None }));
    let actions = drive(&mut p, &mut r, vec![Event::ConnectFailed { now: 2000 }, Event::Persisted]);
    assert!(matches!(actions[0], Action::Persist(Write::Connection { id: 2, checked_at: 2000, reachable: false })));
    assert!(matches!(actions[1], Action::Release));
    assert_eq!(p.result(), Some(Err(ProbeError::Connection)));
    assert_eq!(r.reachable, Some(false));
    assert_eq!(r.info_document, None);
    assert_eq!(r.supports_sync, None);
    assert_eq!(r.last_check, Some(2000));
    // Nothing a late reply says changes an ended pipeline.
    assert!(matches!(p.step(Event::InfoFetched { document: Some(String::from("{}")) }), Action::Wait));
    assert!(matches!(p.step(Event::SyncFinished { supported: true }), Action::Wait));
    assert_eq!(p.phase, Phase::Unreachable);
}

#[test]
fn onion_relay_document_times_out_sync_succeeds() {
    let mut p = Pipeline::start(3, "ws://t3abcdefghijklmnop.onion").unwrap();
    assert_eq!(p.class, AddressClass::AnonymityRouted);
    let mut r = RelayRecord::new(3, String::from("ws://t3abcdefghijklmnop.onion"));
    let actions = drive(
        &mut p,
        &mut r,
        vec![
            Event::SlotAcquired,
            Event::Connected { now: 45 },
            Event::Persisted,
            Event::InfoFetched { document: None },
            Event::SyncFinished { supported: true },
            Event::Persisted,
        ],
    );
    match &actions[0] {
        Action::Connect { timeout_secs, proxy: Some(proxy) } => {
            assert_eq!(*timeout_secs, 60);
            assert_eq!((proxy.a, proxy.b, proxy.c, proxy.d, proxy.port), (127, 0, 0, 1, 9050));
        }
        _ => panic!("expected a routed connect"),
    }
    assert!(matches!(actions[2], Action::FetchInfo { timeout_secs: 60, proxy: Some(_) }));
    assert!(matches!(actions[3], Action::ProbeSync));
    assert!(matches!(actions[5], Action::Release));
    assert_eq!(p.result(), Some(Ok(())));
    assert_eq!(r.reachable, Some(true));
    assert_eq!(r.info_document, None);
    assert_eq!(r.supports_sync, Some(true));
}

#[test]
fn failed_write_ends_pipeline_and_releases() {
    let mut p = Pipeline::start(4, "wss://t4.example.com").unwrap();
    p.step(Event::SlotAcquired);
    p.step(Event::Connected { now: 1 });
    assert!(matches!(p.step(Event::PersistFailed), Action::Release));
    assert_eq!(p.result(), Some(Err(ProbeError::Persistence)));
}

#[test]
fn out_of_order_event_is_ignored() {
    let mut p = Pipeline::start(5, "wss://t5.example.com").unwrap();
    assert!(matches!(p.step(Event::Connected { now: 1 }), Action::Wait));
    assert_eq!(p.phase, Phase::Pending);
    assert_eq!(p.result(), None);
}

#[test]
fn batch_of_120_under_cap_50() {
    let mut s = Scheduler::new(120, 50);
    let mut running: Vec<usize> = Vec::new();
    let mut seen = vec![false; 120];
    let mut peak = 0;
    loop {
        while let Some(i) = s.take_next() {
            assert!(!seen[i]);
            seen[i] = true;
            running.push(i);
            assert!(s.active() <= 50);
            peak = peak.max(s.active());
        }
        if running.is_empty() {
            break;
        }
        // Finish the oldest running pipeline.
        running.remove(0);
        s.complete();
    }
    assert_eq!(peak, 50);
    assert!(s.is_done());
    assert_eq!(s.finished(), 120);
    assert!(seen.iter().all(|b| *b));
}

#[test]
fn cap_blocks_until_a_slot_frees() {
    let mut s = Scheduler::with_default_cap(60);
    for i in 0..MAX_CONCURRENT {
        assert_eq!(s.take_next(), Some(i));
    }
    assert_eq!(s.take_next(), None);
    assert_eq!(s.active(), 50);
    s.complete();
    assert_eq!(s.take_next(), Some(50));
    assert!(!s.is_done());
}

#[test]
fn empty_batch_is_done_at_once() {
    let mut s = Scheduler::new(0, 3);
    assert!(s.is_done());
    assert_eq!(s.take_next(), None);
}
