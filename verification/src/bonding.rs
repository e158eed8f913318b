//! Single-slot bonding store.
//!
//! The pairing subsystem of the BLE engine calls into this store: it asks
//! for the device's input/output capabilities, whether bonding is allowed,
//! hands over the new peer's credentials once a bond completes, looks keys
//! up on reconnection, and saves/loads per-peer system attributes around
//! each session. The store remembers at most one peer; a new bond silently
//! replaces the previous one and discards its cached attributes.

use vstd::prelude::*;

use crate::sysattrs::SysAttrsBuf;
use crate::sysattrs::sys_attrs_bytes;

verus! {

/// A peer device's address, packed into one integer (6 address bytes plus
/// the address type).
#[derive(Clone, Copy, Debug, PartialEq, Eq, Structural)]
pub struct PeerAddress {
    pub addr: u64,
}

/// Identifier of a long-term key: encrypted diversifier plus random value.
#[derive(Clone, Copy, Debug, PartialEq, Eq, Structural)]
pub struct MasterId {
    pub ediv: u16,
    pub rand: u64,
}

/// Long-term key material handed over by the engine when a bond completes.
#[derive(Clone, Copy, Debug)]
pub struct EncryptionInfo {
    pub ltk: [u8; 16],
    pub flags: u8,
}

/// A bonded peer's identity: resolving key plus its public address.
#[derive(Clone, Copy, Debug)]
pub struct IdentityKey {
    pub irk: [u8; 16],
    pub addr: PeerAddress,
}

impl IdentityKey {
    /// Whether this identity belongs to the device at `addr`.
    pub fn is_match(&self, addr: PeerAddress) -> (r: bool)
        ensures
            r == (self.addr == addr),
    {
        self.addr == addr
    }
}

/// Credentials of the one remembered peer.
#[derive(Clone, Copy, Debug)]
pub struct Peer {
    pub master_id: MasterId,
    pub key: EncryptionInfo,
    pub peer_id: IdentityKey,
}

/// Input/output capabilities reported to the pairing subsystem.
#[derive(Clone, Copy, Debug, PartialEq, Eq, Structural)]
pub enum IoCapabilities {
    DisplayOnly,
    DisplayYesNo,
    KeyboardOnly,
    NoInputNoOutput,
    KeyboardDisplay,
}

/// The one active link, as far as this store reads it: the peer's address.
#[derive(Clone, Copy, Debug)]
pub struct Connection {
    pub peer_address: PeerAddress,
}

impl Connection {
    pub fn peer_address(&self) -> (r: PeerAddress)
        ensures
            r == self.peer_address,
    {
        self.peer_address
    }
}

/// Mathematical model of the store: the remembered peer and the cached
/// attribute bytes.
pub struct StoreView {
    pub peer: Option<Peer>,
    pub sys_attrs: Seq<u8>,
}

/// Whether the remembered peer (if any) is the device at `addr`.
pub open spec fn peer_matches(peer: Option<Peer>, addr: PeerAddress) -> bool {
    peer matches Some(p) && p.peer_id.addr == addr
}

/// The attribute blob as stored: truncated to the buffer's capacity.
pub open spec fn truncated(attrs: Seq<u8>) -> Seq<u8> {
    if attrs.len() <= 62 {
        attrs
    } else {
        attrs.take(62)
    }
}

/// Effect of a completed bond: the new peer replaces any previous one and
/// the cached attributes are discarded.
pub open spec fn spec_on_bonded(
    s: StoreView,
    master_id: MasterId,
    key: EncryptionInfo,
    peer_id: IdentityKey,
) -> StoreView {
    StoreView { peer: Some(Peer { master_id, key, peer_id }), sys_attrs: Seq::empty() }
}

/// Key lookup: the stored key material, only when a peer is remembered and
/// its key identifier equals the requested one.
pub open spec fn spec_get_key(s: StoreView, master_id: MasterId) -> Option<EncryptionInfo> {
    if s.peer matches Some(p) && p.master_id == master_id {
        Some(s.peer->Some_0.key)
    } else {
        None
    }
}

/// Effect of saving system attributes fetched for the link at `addr`: the
/// blob, truncated to capacity, replaces the cache when the remembered
/// peer matches; otherwise nothing changes.
pub open spec fn spec_save(s: StoreView, addr: PeerAddress, attrs: Seq<u8>) -> StoreView {
    if peer_matches(s.peer, addr) {
        StoreView { peer: s.peer, sys_attrs: truncated(attrs) }
    } else {
        s
    }
}

/// What loading supplies for the link at `addr`: the cached bytes, only
/// when the remembered peer matches and the cache is non-empty; otherwise
/// "no attributes" and the engine falls back to defaults.
pub open spec fn spec_load(s: StoreView, addr: PeerAddress) -> Option<Seq<u8>> {
    if peer_matches(s.peer, addr) && s.sys_attrs.len() > 0 {
        Some(s.sys_attrs)
    } else {
        None
    }
}

/// The store's model after a whole sequence of bonding events, applied in
/// order.
pub open spec fn apply_bonds(s: StoreView, events: Seq<Peer>) -> StoreView
    decreases events.len(),
{
    if events.len() == 0 {
        s
    } else {
        apply_bonds(
            spec_on_bonded(s, events[0].master_id, events[0].key, events[0].peer_id),
            events.subrange(1, events.len() as int),
        )
    }
}

/// Law: for every sequence of bonding events, the store holds exactly the
/// most recently bonded peer, and the attribute cache is discarded.
pub proof fn lemma_last_bond_wins(s: StoreView, events: Seq<Peer>)
    requires
        events.len() > 0,
    ensures
        apply_bonds(s, events).peer == Some(events.last()),
        apply_bonds(s, events).sys_attrs == Seq::<u8>::empty(),
    decreases events.len(),
{
    let bonded = spec_on_bonded(s, events[0].master_id, events[0].key, events[0].peer_id);
    let rest = events.subrange(1, events.len() as int);
    if events.len() == 1 {
        assert(rest.len() == 0);
        assert(apply_bonds(s, events) == apply_bonds(bonded, rest));
        assert(apply_bonds(bonded, rest) == bonded);
    } else {
        lemma_last_bond_wins(bonded, rest);
        assert(rest.last() == events.last());
    }
}

/// Law: `get_key` after any sequence of bonding events returns a match
/// exactly when the requested key identifier equals the most recently
/// bonded peer's, and then returns that peer's key material.
pub proof fn lemma_get_key_after_bonds(s: StoreView, events: Seq<Peer>, master_id: MasterId)
    requires
        events.len() > 0,
    ensures
        spec_get_key(apply_bonds(s, events), master_id) == (if events.last().master_id
            == master_id {
            Some(events.last().key)
        } else {
            None::<EncryptionInfo>
        }),
{
    lemma_last_bond_wins(s, events);
}

/// Law: saving attributes fetched for the matching peer and immediately
/// loading them for the same address supplies byte-identical content,
/// truncated to at most 62 bytes. (An empty blob is the one exception:
/// loading then supplies "no attributes".)
pub proof fn lemma_sys_attrs_round_trip(s: StoreView, addr: PeerAddress, attrs: Seq<u8>)
    requires
        peer_matches(s.peer, addr),
        attrs.len() > 0,
    ensures
        spec_load(spec_save(s, addr, attrs), addr) == Some(truncated(attrs)),
        truncated(attrs).len() <= 62,
        attrs.len() <= 62 ==> truncated(attrs) == attrs,
{
    assert(truncated(attrs).len() > 0);
}

/// Law: loading for a non-matching or absent peer always supplies "no
/// attributes".
pub proof fn lemma_load_absent_peer(s: StoreView, addr: PeerAddress)
    requires
        !peer_matches(s.peer, addr),
    ensures
        spec_load(s, addr) is None,
{
}

/// The bonding store: at most one remembered peer, plus that peer's cached
/// system attributes.
pub struct Bounder {
    pub peer: Option<Peer>,
    pub sys_attrs: SysAttrsBuf,
}

impl View for Bounder {
    type V = StoreView;

    closed spec fn view(&self) -> StoreView {
        StoreView { peer: self.peer, sys_attrs: sys_attrs_bytes(self.sys_attrs) }
    }
}

impl Default for Bounder {
    /// An empty store: no peer remembered, no attributes cached.
    fn default() -> (r: Bounder)
        ensures
            r@.peer is None,
            r@.sys_attrs == Seq::<u8>::empty(),
    {
        Bounder { peer: None, sys_attrs: SysAttrsBuf::new() }
    }
}

impl Bounder {
    /// This device can only display a passkey, never take one in.
    pub fn io_capabilities(&self) -> (r: IoCapabilities)
        ensures
            r == IoCapabilities::DisplayOnly,
    {
        IoCapabilities::DisplayOnly
    }

    /// Policy constant: bonding is always permitted on this device.
    pub fn can_bond(&self, _conn: &Connection) -> (r: bool)
        ensures
            r,
    {
        true
    }

    /// A bond completed: forget the previous peer's credentials and cached
    /// attributes and remember the new peer, unconditionally.
    pub fn on_bonded(
        &mut self,
        _conn: &Connection,
        master_id: MasterId,
        key: EncryptionInfo,
        peer_id: IdentityKey,
    )
        ensures
            final(self)@ == spec_on_bonded(old(self)@, master_id, key, peer_id),
    {
        self.sys_attrs.clear();
        self.peer = Some(Peer { master_id, key, peer_id });
    }

    /// Key lookup on reconnection: the stored key material exactly when the
    /// requested identifier equals the remembered peer's; "no key" both when
    /// no peer is remembered and when the identifiers differ.
    pub fn get_key(&self, _conn: &Connection, master_id: MasterId) -> (r: Option<EncryptionInfo>)
        ensures
            r == spec_get_key(self@, master_id),
    {
        match &self.peer {
            Some(peer) => {
                if peer.master_id == master_id {
                    Some(peer.key)
                } else {
                    None
                }
            },
            None => None,
        }
    }

    /// Caches the system-attribute blob the engine reported for this link,
    /// truncated to the buffer's capacity, when the remembered peer is the
    /// link's peer; a mismatching or absent peer leaves the store unchanged.
    pub fn save_sys_attrs(&mut self, conn: &Connection, attrs: &[u8])
        ensures
            final(self)@ == spec_save(old(self)@, conn.peer_address, attrs@),
    {
        let matches_peer: bool = match &self.peer {
            Some(peer) => peer.peer_id.is_match(conn.peer_address()),
            None => false,
        };
        if matches_peer {
            self.sys_attrs.clear();
            let n: usize = if attrs.len() <= 62 {
                attrs.len()
            } else {
                62
            };
            let mut i: usize = 0;
            while i < n
                invariant
                    i <= n,
                    n <= attrs@.len(),
                    n <= 62,
                    n == truncated(attrs@).len(),
                    self.peer == old(self).peer,
                    sys_attrs_bytes(self.sys_attrs) == truncated(attrs@).take(i as int),
                decreases n - i,
            {
                let _ = self.sys_attrs.push(attrs[i]);
                proof {
                    assert(truncated(attrs@).take(i as int).push(attrs@[i as int]) =~= truncated(
                        attrs@,
                    ).take(i as int + 1));
                }
                i = i + 1;
            }
            proof {
                assert(truncated(attrs@).take(n as int) =~= truncated(attrs@));
            }
        }
    }

    /// The cached attribute bytes to restore on this link: present exactly
    /// when the remembered peer is the link's peer and the cache is
    /// non-empty; otherwise the engine is to use defaults.
    pub fn load_sys_attrs(&self, conn: &Connection) -> (r: Option<Vec<u8>>)
        ensures
            r is Some <==> spec_load(self@, conn.peer_address) is Some,
            r matches Some(v) ==> spec_load(self@, conn.peer_address) == Some(v@),
    {
        let matches_peer: bool = match &self.peer {
            Some(peer) => peer.peer_id.is_match(conn.peer_address()),
            None => false,
        };
        if matches_peer && self.sys_attrs.len() > 0 {
            Some(self.sys_attrs.copy_to_vec())
        } else {
            None
        }
    }
}

} // verus!
