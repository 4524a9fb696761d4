use lamprey::clients::{
    handle_websocket_ledger_proxy_connected, handle_websocket_ledger_proxy_disconnected, Clients,
    Delivery, Outbound,
};

fn ids(clients: &Clients) -> Vec<u64> {
    let mut ids = clients.ids();
    ids.sort();
    ids
}

fn round(clients: &Clients, message: &Outbound) -> Vec<Delivery> {
    let mut report = clients.broadcast(message);
    report.sort_by_key(|delivery| delivery.id);
    report
}

#[test]
fn identifiers_start_at_one_and_increase() {
    let mut clients = Clients::new();
    let mut receivers = Vec::new();
    for expected in 1..=50u64 {
        let (id, receiver) = clients.register().unwrap();
        assert_eq!(id, expected);
        receivers.push(receiver);
    }
    assert_eq!(clients.len(), 50);
    assert_eq!(ids(&clients), (1..=50).collect::<Vec<u64>>());
}

#[test]
fn identifier_is_never_given_twice() {
    let mut clients = Clients::new();
    let (first, _first_receiver) = clients.register().unwrap();
    let (second, _second_receiver) = clients.register().unwrap();
    assert!(clients.deregister(second));
    assert!(clients.deregister(first));
    let (third, _third_receiver) = clients.register().unwrap();
    assert_eq!((first, second, third), (1, 2, 3));
    assert_eq!(ids(&clients), vec![3]);
}

#[test]
fn registries_count_on_their_own() {
    let mut left = Clients::new();
    let mut right = Clients::new();
    let (a, _a) = left.register().unwrap();
    let (b, _b) = left.register().unwrap();
    let (c, _c) = right.register().unwrap();
    assert_eq!((a, b, c), (1, 2, 1));
}

#[test]
fn deregistering_twice_changes_nothing_more() {
    let mut clients = Clients::new();
    let (_one, _r1) = clients.register().unwrap();
    let (two, _r2) = clients.register().unwrap();
    let (_three, _r3) = clients.register().unwrap();
    assert!(clients.deregister(two));
    assert_eq!(ids(&clients), vec![1, 3]);
    assert!(!clients.deregister(two));
    assert_eq!(ids(&clients), vec![1, 3]);
    assert!(!clients.deregister(77));
    assert_eq!(clients.len(), 2);
}

#[test]
fn connection_handlers_register_and_deregister() {
    let mut clients = Clients::new();
    let (id, _receiver) = handle_websocket_ledger_proxy_connected(&mut clients).unwrap();
    assert_eq!(id, 1);
    assert_eq!(ids(&clients), vec![1]);
    handle_websocket_ledger_proxy_disconnected(id, &mut clients);
    assert!(ids(&clients).is_empty());
    handle_websocket_ledger_proxy_disconnected(id, &mut clients);
    assert!(ids(&clients).is_empty());
}

#[test]
fn broadcast_reaches_every_subscriber() {
    let mut clients = Clients::new();
    let (_a, mut first) = clients.register().unwrap();
    let (_b, mut second) = clients.register().unwrap();
    let message = Outbound::Text("hello".to_string());
    let report = round(&clients, &message);
    assert_eq!(
        report,
        vec![Delivery { id: 1, delivered: true }, Delivery { id: 2, delivered: true }]
    );
    assert_eq!(first.try_recv().ok(), Some(Outbound::Text("hello".to_string())));
    assert_eq!(second.try_recv().ok(), Some(Outbound::Text("hello".to_string())));
    assert!(first.try_recv().is_err());
}

#[test]
fn delivery_to_a_departed_subscriber_is_swallowed() {
    let mut clients = Clients::new();
    let (_a, first) = clients.register().unwrap();
    let (_b, mut second) = clients.register().unwrap();
    drop(first);
    let report = round(&clients, &Outbound::Close { code: 1000, reason: "bye".to_string() });
    assert_eq!(
        report,
        vec![Delivery { id: 1, delivered: false }, Delivery { id: 2, delivered: true }]
    );
    assert_eq!(ids(&clients), vec![1, 2]);
    assert_eq!(
        second.try_recv().ok(),
        Some(Outbound::Close { code: 1000, reason: "bye".to_string() })
    );
}

#[test]
fn broadcast_to_nobody_reports_nothing() {
    let clients = Clients::new();
    assert!(clients.broadcast(&Outbound::Text("x".to_string())).is_empty());
}

#[test]
fn copy_of_a_message_equals_it() {
    let close = Outbound::Close { code: 1000, reason: "done".to_string() };
    assert_eq!(close.copy(), close);
    let text = Outbound::Text("payload".to_string());
    assert_eq!(text.copy(), text);
}
