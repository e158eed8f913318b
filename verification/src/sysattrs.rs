//! Bounded buffer for cached per-peer system attributes.
//!
//! The store keeps the attribute blob in a `heapless::Vec<u8, 62>`: a
//! fixed-capacity vector that never allocates, as fits firmware without a
//! heap. Verus cannot look inside that type (its declaration takes a const
//! parameter), so the buffer lives in an opaque struct whose contents are
//! named by `sys_attrs_bytes`, and every operation the store needs goes
//! through a trusted wrapper whose contract states what the vector's own
//! source shows.

use vstd::prelude::*;

verus! {

/// Capacity of the cached system-attribute blob, in bytes.
pub const SYS_ATTRS_CAP: usize = 62;

/// Opaque holder of a `heapless::Vec<u8, 62>`.
#[verifier::external_body]
pub struct SysAttrsBuf {
    buf: heapless::Vec<u8, 62>,
}

/// The bytes currently held by the buffer, oldest first.
pub uninterp spec fn sys_attrs_bytes(v: SysAttrsBuf) -> Seq<u8>;

impl SysAttrsBuf {
    /// Relies on `heapless::Vec::new`: constructs an empty vector.
    #[verifier::external_body]
    pub fn new() -> (r: SysAttrsBuf)
        ensures
            sys_attrs_bytes(r) == Seq::<u8>::empty(),
    {
        SysAttrsBuf { buf: heapless::Vec::new() }
    }

    /// Relies on `heapless::Vec::clear`: removes all values.
    #[verifier::external_body]
    pub fn clear(&mut self)
        ensures
            sys_attrs_bytes(*final(self)) == Seq::<u8>::empty(),
    {
        self.buf.clear();
    }

    /// Relies on `heapless::Vec::push`: appends the item, or returns it
    /// back unchanged-buffer when the vector is already full (length equal
    /// to its capacity of 62).
    #[verifier::external_body]
    pub fn push(&mut self, b: u8) -> (r: Result<(), u8>)
        ensures
            sys_attrs_bytes(*old(self)).len() < 62 ==> {
                &&& r is Ok
                &&& sys_attrs_bytes(*final(self)) == sys_attrs_bytes(*old(self)).push(b)
            },
            sys_attrs_bytes(*old(self)).len() >= 62 ==> {
                &&& r == Err::<(), u8>(b)
                &&& sys_attrs_bytes(*final(self)) == sys_attrs_bytes(*old(self))
            },
    {
        self.buf.push(b)
    }

    /// Relies on `heapless::Vec::len` (via `Deref` to a slice of the first
    /// `len` initialized elements): the current number of bytes held,
    /// which never exceeds the capacity of 62.
    #[verifier::external_body]
    pub fn len(&self) -> (r: usize)
        ensures
            r == sys_attrs_bytes(*self).len(),
            r <= 62,
    {
        self.buf.len()
    }

    /// Relies on `heapless::Vec::as_slice`: a slice of exactly the bytes
    /// held, copied out into an owned vector.
    #[verifier::external_body]
    pub fn copy_to_vec(&self) -> (r: Vec<u8>)
        ensures
            r@ == sys_attrs_bytes(*self),
    {
        self.buf.as_slice().to_vec()
    }
}

} // verus!
