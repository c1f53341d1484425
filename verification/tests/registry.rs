use ws_engine::registry::{ClientInfo, ClientRegistry};
use ws_engine::connection::register_client;

fn client(id: &str, addr: &str, sender: u32) -> ClientInfo<u32> {
    ClientInfo { id: id.to_string(), addr: addr.to_string(), sender }
}

#[test]
fn registry_starts_empty() {
    let reg: ClientRegistry<u32> = ClientRegistry::new();
    assert_eq!(reg.len(), 0);
    assert!(reg.list().is_empty());
}

#[test]
fn insert_get_remove_roundtrip() {
    let mut reg: ClientRegistry<u32> = ClientRegistry::new();
    assert!(reg.insert(client("a", "1.1.1.1:1", 10)).is_none());
    assert!(reg.insert(client("b", "2.2.2.2:2", 20)).is_none());
    assert_eq!(reg.len(), 2);

    let got = reg.get(&"a".to_string()).expect("a is registered");
    assert_eq!(got.addr, "1.1.1.1:1");
    assert_eq!(got.sender, 10);

    let removed = reg.remove(&"a".to_string()).expect("a is registered");
    assert_eq!(removed.id, "a");
    assert_eq!(removed.sender, 10);
    assert_eq!(reg.len(), 1);

    // Never removed twice.
    assert!(reg.remove(&"a".to_string()).is_none());
    assert_eq!(reg.len(), 1);

    // The other entry is unaffected.
    let b = reg.get(&"b".to_string()).expect("b is still registered");
    assert_eq!(b.addr, "2.2.2.2:2");
}

#[test]
fn insert_existing_id_evicts_old_entry() {
    let mut reg: ClientRegistry<u32> = ClientRegistry::new();
    assert!(reg.insert(client("a", "1.1.1.1:1", 10)).is_none());
    let prev = reg.insert(client("a", "3.3.3.3:3", 30)).expect("old entry is evicted");
    assert_eq!(prev.sender, 10);
    assert_eq!(reg.len(), 1);
    assert_eq!(reg.get(&"a".to_string()).unwrap().sender, 30);
}

#[test]
fn list_is_a_snapshot_of_ids_and_addresses() {
    let mut reg: ClientRegistry<u32> = ClientRegistry::new();
    reg.insert(client("a", "1.1.1.1:1", 10));
    reg.insert(client("b", "2.2.2.2:2", 20));
    let snapshot = reg.list();
    assert_eq!(
        snapshot,
        vec![
            ("a".to_string(), "1.1.1.1:1".to_string()),
            ("b".to_string(), "2.2.2.2:2".to_string()),
        ]
    );
    // Mutating the registry afterwards does not touch the snapshot.
    reg.clear();
    assert_eq!(reg.len(), 0);
    assert_eq!(snapshot.len(), 2);
}

#[test]
fn drain_hands_out_everything_and_empties() {
    let mut reg: ClientRegistry<u32> = ClientRegistry::new();
    reg.insert(client("a", "1.1.1.1:1", 10));
    reg.insert(client("b", "2.2.2.2:2", 20));
    let drained = reg.drain();
    assert_eq!(drained.len(), 2);
    assert_eq!(reg.len(), 0);
    let drained_again = reg.drain();
    assert!(drained_again.is_empty());
}

#[test]
fn register_client_generates_uuid_text_ids() {
    let mut reg: ClientRegistry<u32> = ClientRegistry::new();
    let (id1, prev1) = register_client(&mut reg, "1.1.1.1:1".to_string(), 10);
    assert!(prev1.is_none());
    // The hyphenated rendering of a 128-bit id is always 36 characters.
    assert_eq!(id1.chars().count(), 36);
    assert!(id1.chars().all(|c| c.is_ascii_hexdigit() || c == '-'));

    let (id2, prev2) = register_client(&mut reg, "2.2.2.2:2".to_string(), 20);
    assert!(prev2.is_none());
    assert_ne!(id1, id2);
    assert_eq!(reg.len(), 2);
    assert_eq!(reg.get(&id1).unwrap().addr, "1.1.1.1:1");
    assert_eq!(reg.get(&id2).unwrap().sender, 20);
}
