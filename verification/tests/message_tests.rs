use std::sync::mpsc;

use sound_sync::message::{RoutingStrategy, ScriptMessage, ScriptMessageKind, ScriptMessageSender};
use sound_sync::pool::Handle;
use sound_sync::util::is_slice_equal_permutation;

#[test]
fn send_to_target_delivers_targeted_kind() {
    let (tx, rx) = mpsc::channel::<ScriptMessage<u32>>();
    let sender = ScriptMessageSender::new(tx);
    let target = Handle { index: 3, generation: 7 };
    sender.send_to_target(target, 42);
    let m = rx.recv().unwrap();
    assert_eq!(m.payload, 42);
    assert_eq!(m.kind, ScriptMessageKind::Targeted(target));
}

#[test]
fn send_global_delivers_global_kind() {
    let (tx, rx) = mpsc::channel::<ScriptMessage<&str>>();
    let sender = ScriptMessageSender::new(tx);
    sender.send_global("ping");
    let m = rx.recv().unwrap();
    assert_eq!(m.payload, "ping");
    assert_eq!(m.kind, ScriptMessageKind::Global);
}

#[test]
fn send_hierarchical_delivers_routing() {
    let (tx, rx) = mpsc::channel::<ScriptMessage<u8>>();
    let sender = ScriptMessageSender::new(tx);
    let root = Handle { index: 1, generation: 2 };
    sender.send_hierarchical(root, RoutingStrategy::Down, 9);
    let m = rx.recv().unwrap();
    assert_eq!(m.payload, 9);
    assert_eq!(
        m.kind,
        ScriptMessageKind::Hierarchical { root, routing: RoutingStrategy::Down }
    );
}

#[test]
fn cloned_sender_feeds_same_queue() {
    let (tx, rx) = mpsc::channel::<ScriptMessage<u32>>();
    let sender = ScriptMessageSender::new(tx);
    let clone = sender.clone();
    clone.send_global(1);
    sender.send_global(2);
    assert_eq!(rx.recv().unwrap().payload, 1);
    assert_eq!(rx.recv().unwrap().payload, 2);
}

#[test]
fn dropped_receiver_does_not_panic() {
    let (tx, rx) = mpsc::channel::<ScriptMessage<u32>>();
    drop(rx);
    let sender = ScriptMessageSender::new(tx);
    sender.send_global(5);
}

#[test]
fn loose_permutation_accepts_reordering() {
    assert!(is_slice_equal_permutation(&[1u32, 2, 3], &[3, 1, 2]));
    assert!(is_slice_equal_permutation(&[2u32, 2], &[2]));
    assert!(is_slice_equal_permutation::<u32>(&[], &[]));
}

#[test]
fn loose_permutation_rejects_missing_elements() {
    assert!(!is_slice_equal_permutation(&[1u32, 4], &[1, 2]));
    assert!(!is_slice_equal_permutation::<u32>(&[], &[1]));
    assert!(!is_slice_equal_permutation(&[7u32], &[]));
}
