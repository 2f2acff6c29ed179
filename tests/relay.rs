use chat_relay::dispatch::{broadcast_msg, Delivery};
use chat_relay::frame::Frame;
use chat_relay::issuer::IdIssuer;
use chat_relay::registry::{RegisterError, Registry};
use chat_relay::session::{connect, disconnect, Inbound, Phase, Session, Step};
use std::sync::Arc;
use tokio::sync::mpsc::{unbounded_channel, UnboundedReceiver};

fn text(s: &str) -> Frame {
    Frame::Text(String::from(s))
}

fn drain(rx: &mut UnboundedReceiver<Frame>) -> Vec<Frame> {
    let mut out = Vec::new();
    while let Ok(f) = rx.try_recv() {
        out.push(f);
    }
    out
}

fn outcomes(report: &[Delivery]) -> Vec<(usize, bool)> {
    report.iter().map(|d| (d.id, d.accepted())).collect()
}

fn join(users: &mut Registry, issuer: &IdIssuer) -> (Session, UnboundedReceiver<Frame>) {
    let (tx, rx) = unbounded_channel();
    let s = connect(issuer, users, tx).expect("fresh identity");
    (s, rx)
}

#[test]
fn three_clients_hi_then_bye() {
    let issuer = IdIssuer::new();
    let mut users = Registry::new();
    let (a, mut rx_a) = join(&mut users, &issuer);
    let (b, mut rx_b) = join(&mut users, &issuer);
    let (c, mut rx_c) = join(&mut users, &issuer);
    assert_eq!((a.id(), b.id(), c.id()), (0, 1, 2));

    let report = broadcast_msg(&text("hi"), &users);
    assert_eq!(report.len(), 3);
    assert_eq!(drain(&mut rx_a), vec![text("hi")]);
    assert_eq!(drain(&mut rx_b), vec![text("hi")]);
    assert_eq!(drain(&mut rx_c), vec![text("hi")]);

    assert!(disconnect(b, &mut users));
    assert!(!users.contains(1));
    broadcast_msg(&text("bye"), &users);
    assert_eq!(drain(&mut rx_a), vec![text("bye")]);
    assert_eq!(drain(&mut rx_b), Vec::<Frame>::new());
    assert_eq!(drain(&mut rx_c), vec![text("bye")]);
    assert_eq!(users.snapshot_ids(), vec![0, 2]);
}

#[test]
fn text_reaches_every_connection_once() {
    let issuer = IdIssuer::new();
    let mut users = Registry::new();
    let mut rxs = Vec::new();
    for _ in 0..5 {
        let (_, rx) = join(&mut users, &issuer);
        rxs.push(rx);
    }
    let report = broadcast_msg(&text("all"), &users);
    let ids: Vec<usize> = report.iter().map(|d| d.id).collect();
    assert_eq!(ids, vec![0, 1, 2, 3, 4]);
    assert!(report.iter().all(|d| d.accepted()));
    for rx in rxs.iter_mut() {
        assert_eq!(drain(rx), vec![text("all")]);
    }
}

#[test]
fn non_text_frames_are_not_broadcast() {
    let issuer = IdIssuer::new();
    let mut users = Registry::new();
    let (_, mut rx_a) = join(&mut users, &issuer);
    let (_, mut rx_b) = join(&mut users, &issuer);
    for f in [
        Frame::Binary(vec![1, 2, 3]),
        Frame::Ping(vec![]),
        Frame::Pong(vec![9]),
        Frame::Close,
    ] {
        assert!(broadcast_msg(&f, &users).is_empty());
    }
    assert!(drain(&mut rx_a).is_empty());
    assert!(drain(&mut rx_b).is_empty());
}

#[test]
fn unregistered_connection_gets_no_later_broadcast() {
    let issuer = IdIssuer::new();
    let mut users = Registry::new();
    let (a, mut rx_a) = join(&mut users, &issuer);
    let (_, mut rx_b) = join(&mut users, &issuer);
    assert!(disconnect(a, &mut users));
    let (_, mut rx_c) = join(&mut users, &issuer);
    let report = broadcast_msg(&text("later"), &users);
    let ids: Vec<usize> = report.iter().map(|d| d.id).collect();
    assert_eq!(ids, vec![1, 2]);
    assert!(drain(&mut rx_a).is_empty());
    assert_eq!(drain(&mut rx_b), vec![text("later")]);
    assert_eq!(drain(&mut rx_c), vec![text("later")]);
}

#[test]
fn dropped_receiver_does_not_stop_delivery_to_others() {
    let issuer = IdIssuer::new();
    let mut users = Registry::new();
    let (_, rx_a) = join(&mut users, &issuer);
    let (_, mut rx_b) = join(&mut users, &issuer);
    drop(rx_a);
    let report = broadcast_msg(&text("x"), &users);
    assert_eq!(outcomes(&report), vec![(0, false), (1, true)]);
    assert_eq!(drain(&mut rx_b), vec![text("x")]);
}

#[test]
fn per_recipient_order_follows_broadcast_order() {
    let issuer = IdIssuer::new();
    let mut users = Registry::new();
    let (_, mut rx) = join(&mut users, &issuer);
    broadcast_msg(&text("one"), &users);
    broadcast_msg(&Frame::Binary(vec![0]), &users);
    broadcast_msg(&text("two"), &users);
    assert_eq!(drain(&mut rx), vec![text("one"), text("two")]);
}

#[test]
fn issued_ids_start_at_zero_and_increase() {
    let issuer = IdIssuer::new();
    let ids: Vec<usize> = (0..4).map(|_| issuer.issue()).collect();
    assert_eq!(ids, vec![0, 1, 2, 3]);
}

#[test]
fn concurrent_issuers_get_distinct_increasing_ids() {
    let issuer = Arc::new(IdIssuer::new());
    let rt = tokio::runtime::Builder::new_multi_thread()
        .worker_threads(4)
        .build()
        .expect("runtime");
    let mut all: Vec<usize> = rt.block_on(async {
        let mut handles = Vec::new();
        for _ in 0..8 {
            let issuer = issuer.clone();
            handles.push(tokio::spawn(async move {
                let mine: Vec<usize> = (0..100).map(|_| issuer.issue()).collect();
                assert!(mine.windows(2).all(|w| w[0] < w[1]));
                mine
            }));
        }
        let mut all = Vec::new();
        for h in handles {
            all.extend(h.await.expect("task"));
        }
        all
    });
    all.sort();
    assert_eq!(all, (0..800).collect::<Vec<usize>>());
}

#[test]
fn duplicate_registration_is_refused() {
    let mut users = Registry::new();
    let (tx1, _rx1) = unbounded_channel();
    let (tx2, mut rx2) = unbounded_channel();
    assert!(Session::open(7, &mut users, tx1).is_ok());
    assert!(matches!(
        Session::open(7, &mut users, tx2.clone()),
        Err(RegisterError::DuplicateId)
    ));
    assert_eq!(users.register(7, tx2), Err(RegisterError::DuplicateId));
    assert_eq!(users.len(), 1);
    broadcast_msg(&text("m"), &users);
    assert!(drain(&mut rx2).is_empty());
}

#[test]
fn unregistering_an_absent_id_changes_nothing() {
    let mut users = Registry::new();
    let (tx, _rx) = unbounded_channel();
    users.register(3, tx).unwrap();
    assert!(!users.unregister(4));
    assert_eq!(users.snapshot_ids(), vec![3]);
    assert!(users.unregister(3));
    assert!(!users.unregister(3));
    assert_eq!(users.len(), 0);
}

#[test]
fn interleaved_joins_and_leaves_keep_ids_unique() {
    let issuer = IdIssuer::new();
    let mut users = Registry::new();
    let mut sessions = Vec::new();
    let mut rxs = Vec::new();
    for round in 0..6 {
        let (s, rx) = join(&mut users, &issuer);
        sessions.push(s);
        rxs.push(rx);
        if round % 2 == 1 {
            let s = sessions.remove(0);
            assert!(disconnect(s, &mut users));
        }
        let report = broadcast_msg(&text("tick"), &users);
        let mut ids: Vec<usize> = report.iter().map(|d| d.id).collect();
        let n = ids.len();
        ids.dedup();
        assert_eq!(ids.len(), n);
        assert_eq!(ids, users.snapshot_ids());
    }
    assert_eq!(users.snapshot_ids(), vec![3, 4, 5]);
}

#[test]
fn session_relays_text_skips_others_and_leaves_on_end() {
    let mut users = Registry::new();
    let (tx, _rx) = unbounded_channel();
    let mut s = Session::open(0, &mut users, tx).unwrap();
    assert_eq!(s.phase(), Phase::Registered);
    assert_eq!(s.step(Inbound::Frame(text("a"))), Step::Dispatch(text("a")));
    assert_eq!(s.step(Inbound::Frame(Frame::Ping(vec![1]))), Step::Skip);
    assert_eq!(s.step(Inbound::Frame(Frame::Binary(vec![2]))), Step::Skip);
    assert_eq!(s.phase(), Phase::Registered);
    assert_eq!(s.step(Inbound::End), Step::Leave);
    assert_eq!(s.phase(), Phase::Unregistering);
    assert_eq!(s.step(Inbound::Frame(text("late"))), Step::Leave);
    assert_eq!(s.id(), 0);
    assert!(disconnect(s, &mut users));
    assert!(!users.contains(0));
}

#[test]
fn frame_copies_keep_kind_and_payload() {
    let f = Frame::Pong(vec![4, 5]);
    assert_eq!(f.duplicate(), f);
    assert!(text("").is_text());
    assert!(!Frame::Close.is_text());
}

#[test]
fn empty_text_is_relayed_verbatim() {
    let issuer = IdIssuer::new();
    let mut users = Registry::new();
    let (_, mut rx) = join(&mut users, &issuer);
    let report = broadcast_msg(&text(""), &users);
    assert_eq!(outcomes(&report), vec![(0, true)]);
    assert_eq!(drain(&mut rx), vec![text("")]);
}

#[test]
fn first_connection_always_registers() {
    let issuer = IdIssuer::new();
    let mut users = Registry::new();
    let (tx, _rx) = unbounded_channel();
    let s = connect(&issuer, &mut users, tx).unwrap();
    assert_eq!(users.snapshot_ids(), vec![s.id()]);
}
