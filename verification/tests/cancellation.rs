use edge_worker::cancellation::{cancel, is_cancelled, Cancellations, REMEMBERED_CANCELLATIONS};
use edge_worker::handlers::handle_cancel_proof;

fn uuid(test: &str, n: usize) -> String {
    format!("{test}-{n}")
}

#[test]
fn records_a_cancellation_once() {
    let mut registry = Cancellations::new();
    assert!(!is_cancelled(&registry, &uuid("once", 0)));
    cancel(&mut registry, uuid("once", 0));
    cancel(&mut registry, uuid("once", 0));
    assert!(is_cancelled(&registry, &uuid("once", 0)));
    assert_eq!(registry.len(), 1);
}

#[test]
fn forgets_the_oldest_beyond_the_bound() {
    let mut registry = Cancellations::new();
    cancel(&mut registry, uuid("bound", 0));
    for n in 1..=REMEMBERED_CANCELLATIONS {
        cancel(&mut registry, uuid("bound", n));
    }
    assert!(!is_cancelled(&registry, &uuid("bound", 0)));
    assert!(is_cancelled(&registry, &uuid("bound", REMEMBERED_CANCELLATIONS)));
    assert_eq!(registry.len(), REMEMBERED_CANCELLATIONS);
}

#[test]
fn a_cancellation_is_remembered_until_the_bound_is_reached() {
    let mut registry = Cancellations::new();
    cancel(&mut registry, uuid("keep", 0));
    for n in 1..REMEMBERED_CANCELLATIONS {
        cancel(&mut registry, uuid("keep", n));
        assert!(is_cancelled(&registry, &uuid("keep", 0)));
    }
    cancel(&mut registry, uuid("keep", 5));
    assert!(is_cancelled(&registry, &uuid("keep", 0)));
    assert_eq!(REMEMBERED_CANCELLATIONS, 64);
}

#[test]
fn cancel_endpoint_answers() {
    let mut registry = Cancellations::new();
    let reply = handle_cancel_proof(&mut registry, "proof-1".to_string());
    assert_eq!((reply.status, reply.body.as_str()), (200, "Canceled"));
    assert!(is_cancelled(&registry, "proof-1"));

    let reply = handle_cancel_proof(&mut registry, "a/b".to_string());
    assert_eq!(reply.status, 400);
    assert!(reply.body.starts_with("Invalid proof_uuid: "));
    assert_eq!(registry.len(), 1);
}
