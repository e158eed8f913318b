use ble_temp::bonding::{
    Bounder, Connection, EncryptionInfo, IdentityKey, IoCapabilities, MasterId, PeerAddress,
};

fn peer_parts(addr: u64, ediv: u16, fill: u8) -> (MasterId, EncryptionInfo, IdentityKey) {
    (
        MasterId { ediv, rand: 1000 + ediv as u64 },
        EncryptionInfo { ltk: [fill; 16], flags: 0 },
        IdentityKey { irk: [fill; 16], addr: PeerAddress { addr } },
    )
}

#[test]
fn io_capabilities_is_display_only() {
    let store = Bounder::default();
    assert_eq!(store.io_capabilities(), IoCapabilities::DisplayOnly);
}

#[test]
fn bonding_always_permitted() {
    let store = Bounder::default();
    let conn = Connection { peer_address: PeerAddress { addr: 1 } };
    assert!(store.can_bond(&conn));
}

#[test]
fn fresh_store_has_no_key() {
    let store = Bounder::default();
    let conn = Connection { peer_address: PeerAddress { addr: 1 } };
    assert!(store.get_key(&conn, MasterId { ediv: 0, rand: 0 }).is_none());
}

#[test]
fn last_bond_wins() {
    let mut store = Bounder::default();
    let conn = Connection { peer_address: PeerAddress { addr: 5 } };
    let (m1, k1, i1) = peer_parts(5, 1, 0x11);
    let (m2, k2, i2) = peer_parts(6, 2, 0x22);
    store.on_bonded(&conn, m1, k1, i1);
    store.on_bonded(&conn, m2, k2, i2);
    // Only the most recent peer is remembered.
    assert!(store.get_key(&conn, m1).is_none());
    let got = store.get_key(&conn, m2).expect("latest bond must be stored");
    assert_eq!(got.ltk, [0x22u8; 16]);
}

#[test]
fn get_key_match_iff_same_master_id() {
    let mut store = Bounder::default();
    let conn = Connection { peer_address: PeerAddress { addr: 5 } };
    let (m, k, i) = peer_parts(5, 9, 0x33);
    store.on_bonded(&conn, m, k, i);
    assert!(store.get_key(&conn, MasterId { ediv: 9, rand: 1009 }).is_some());
    assert!(store.get_key(&conn, MasterId { ediv: 9, rand: 1010 }).is_none());
    assert!(store.get_key(&conn, MasterId { ediv: 8, rand: 1009 }).is_none());
}

#[test]
fn sys_attrs_round_trip() {
    let mut store = Bounder::default();
    let conn = Connection { peer_address: PeerAddress { addr: 42 } };
    let (m, k, i) = peer_parts(42, 1, 0x44);
    store.on_bonded(&conn, m, k, i);
    let blob = [1u8, 2, 3, 4, 5];
    store.save_sys_attrs(&conn, &blob);
    let loaded = store.load_sys_attrs(&conn).expect("matching peer must load");
    assert_eq!(loaded, blob.to_vec());
}

#[test]
fn sys_attrs_truncated_to_capacity() {
    let mut store = Bounder::default();
    let conn = Connection { peer_address: PeerAddress { addr: 42 } };
    let (m, k, i) = peer_parts(42, 1, 0x44);
    store.on_bonded(&conn, m, k, i);
    let blob: Vec<u8> = (0u8..70u8).collect();
    store.save_sys_attrs(&conn, &blob);
    let loaded = store.load_sys_attrs(&conn).expect("matching peer must load");
    assert_eq!(loaded.len(), 62);
    assert_eq!(loaded, blob[..62].to_vec());
}

#[test]
fn load_for_non_matching_peer_is_none() {
    let mut store = Bounder::default();
    let conn = Connection { peer_address: PeerAddress { addr: 42 } };
    let (m, k, i) = peer_parts(42, 1, 0x44);
    store.on_bonded(&conn, m, k, i);
    store.save_sys_attrs(&conn, &[1, 2, 3]);
    let other = Connection { peer_address: PeerAddress { addr: 43 } };
    assert!(store.load_sys_attrs(&other).is_none());
}

#[test]
fn load_for_absent_peer_is_none() {
    let store = Bounder::default();
    let conn = Connection { peer_address: PeerAddress { addr: 42 } };
    assert!(store.load_sys_attrs(&conn).is_none());
}

#[test]
fn save_for_non_matching_peer_changes_nothing() {
    let mut store = Bounder::default();
    let conn = Connection { peer_address: PeerAddress { addr: 42 } };
    let (m, k, i) = peer_parts(42, 1, 0x44);
    store.on_bonded(&conn, m, k, i);
    let other = Connection { peer_address: PeerAddress { addr: 43 } };
    store.save_sys_attrs(&other, &[1, 2, 3]);
    // Nothing was cached for the matching peer, so loading stays empty.
    assert!(store.load_sys_attrs(&conn).is_none());
}

#[test]
fn empty_cache_loads_as_none() {
    let mut store = Bounder::default();
    let conn = Connection { peer_address: PeerAddress { addr: 42 } };
    let (m, k, i) = peer_parts(42, 1, 0x44);
    store.on_bonded(&conn, m, k, i);
    store.save_sys_attrs(&conn, &[]);
    assert!(store.load_sys_attrs(&conn).is_none());
}

#[test]
fn new_bond_discards_cached_attrs() {
    let mut store = Bounder::default();
    let conn = Connection { peer_address: PeerAddress { addr: 42 } };
    let (m1, k1, i1) = peer_parts(42, 1, 0x44);
    store.on_bonded(&conn, m1, k1, i1);
    store.save_sys_attrs(&conn, &[1, 2, 3]);
    // Re-bonding the same address discards the cache.
    let (m2, k2, i2) = peer_parts(42, 2, 0x55);
    store.on_bonded(&conn, m2, k2, i2);
    assert!(store.load_sys_attrs(&conn).is_none());
}
