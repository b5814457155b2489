//! Generators of local node identifiers.
use crate::node_id::LocalNodeId;
use vstd::prelude::*;

verus! {

/// This trait allows for generating the identifiers of the local nodes that belong to a service.
pub trait GenerateLocalNodeId {
    /// Whether the generator may hand out `id` next and be `later` after
    /// that. Where a generator says nothing else, it may hand out anything.
    open spec fn generates(&self, id: LocalNodeId, later: &Self) -> bool {
        true
    }

    /// Generates an identifier that will be assigned to a new local node that belongs to a service.
    fn generate_local_node_id(&mut self) -> (id: LocalNodeId)
        ensures
            old(self).generates(id, final(self)),
    ;
}

/// An implementation of [`GenerateLocalNodeId`] that generates serial number identifiers.
#[derive(Debug)]
pub struct SerialLocalNodeIdGenerator {
    next_id: u64,
}

impl SerialLocalNodeIdGenerator {
    /// The number that the generator hands out next.
    pub closed spec fn next_id(self) -> u64 {
        self.next_id
    }

    /// The number that follows `id`: one more, and zero after the largest.
    pub open spec fn successor(id: u64) -> u64 {
        if id == u64::MAX {
            0
        } else {
            (id + 1) as u64
        }
    }

    /// Makes a new `SerialLocalNodeIdGenerator` instance.
    ///
    /// It generates 0, 1, 2 and so on.
    pub fn new() -> (r: Self)
        ensures
            r.next_id() == 0,
    {
        SerialLocalNodeIdGenerator { next_id: 0 }
    }

    /// Makes a new `SerialLocalNodeIdGenerator` instance with the given start number.
    ///
    /// After `u64::MAX` it starts again at zero.
    pub fn with_offset(start_number: u64) -> (r: Self)
        ensures
            r.next_id() == start_number,
    {
        SerialLocalNodeIdGenerator { next_id: start_number }
    }
}

impl Default for SerialLocalNodeIdGenerator {
    fn default() -> (r: Self)
        ensures
            r.next_id() == 0,
    {
        Self::new()
    }
}

impl GenerateLocalNodeId for SerialLocalNodeIdGenerator {
    /// The numbers are handed out one after another.
    open spec fn generates(&self, id: LocalNodeId, later: &Self) -> bool {
        &&& id == LocalNodeId(self.next_id())
        &&& later.next_id() == Self::successor(self.next_id())
    }

    fn generate_local_node_id(&mut self) -> (id: LocalNodeId) {
        let id = self.next_id;
        self.next_id = id.wrapping_add(1);
        LocalNodeId::new(id)
    }
}

/// An implementation of [`GenerateLocalNodeId`] that generates identifiers based on UNIX time in nanoseconds.
#[derive(Debug)]
pub struct UnixtimeLocalNodeIdGenerator {
    nanos: u64,
}

/// The identifier made at `secs` seconds and `micros` microseconds after the
/// UNIX epoch by a generator that has made `count` identifiers before: the
/// time in nanoseconds, with `count` in the three digits under a microsecond,
/// cut to 64 bits.
pub open spec fn unixtime_id(secs: u64, micros: u32, count: u64) -> u64 {
    ((secs as int * 1_000_000_000 + micros as int * 1_000 + count as int % 1_000)
        % 0x1_0000_0000_0000_0000) as u64
}

/// Reads the system clock with `std::time::UNIX_EPOCH.elapsed()`, and
/// returns the time since the UNIX epoch, or `None` where the clock is set
/// before the epoch. Nothing is known of the time.
#[verifier::external_body]
fn unix_time() -> Option<std::time::Duration> {
    match std::time::UNIX_EPOCH.elapsed() {
        Ok(d) => Some(d),
        Err(_) => None,
    }
}

/// `Duration::as_secs` of std gives the whole seconds of a span. Nothing is
/// claimed of the number.
pub assume_specification[ std::time::Duration::as_secs ](d: &std::time::Duration) -> u64;

/// `Duration::subsec_micros` of std gives the fraction of a second of a
/// span in whole microseconds: a number under one million.
pub assume_specification[ std::time::Duration::subsec_micros ](d: &std::time::Duration) -> (r: u32)
    ensures
        r < 1_000_000,
;

impl UnixtimeLocalNodeIdGenerator {
    /// The number of identifiers made so far.
    pub closed spec fn count(self) -> u64 {
        self.nanos
    }

    /// Makes a new `UnixtimeLocalNodeIdGenerator` instance.
    pub fn new() -> (r: Self)
        ensures
            r.count() == 0,
    {
        UnixtimeLocalNodeIdGenerator { nanos: 0 }
    }

    /// Makes the identifier for a given reading of the clock.
    pub fn generate_at(&mut self, secs: u64, micros: u32) -> (id: LocalNodeId)
        ensures
            id == LocalNodeId(unixtime_id(secs, micros, old(self).count())),
            final(self).count() == SerialLocalNodeIdGenerator::successor(old(self).count()),
    {
        let count: u64 = self.nanos;
        self.nanos = count.wrapping_add(1);
        let s: u128 = secs as u128;
        let m: u128 = micros as u128;
        let n: u128 = (count % 1_000) as u128;
        let total: u128 = s * 1_000_000_000 + m * 1_000 + n;
        let id: u64 = (total % 0x1_0000_0000_0000_0000) as u64;
        LocalNodeId::new(id)
    }
}

impl Default for UnixtimeLocalNodeIdGenerator {
    fn default() -> (r: Self)
        ensures
            r.count() == 0,
    {
        Self::new()
    }
}

impl GenerateLocalNodeId for UnixtimeLocalNodeIdGenerator {
    /// The identifier is made of some time with a fraction under a second,
    /// and of the number of identifiers made before.
    open spec fn generates(&self, id: LocalNodeId, later: &Self) -> bool {
        &&& exists|secs: u64, micros: u32|
            micros < 1_000_000 && id == LocalNodeId(
                #[trigger] unixtime_id(secs, micros, self.count()),
            )
        &&& later.count() == SerialLocalNodeIdGenerator::successor(self.count())
    }

    /// A clock that is set before the UNIX epoch counts as showing the epoch.
    fn generate_local_node_id(&mut self) -> (id: LocalNodeId) {
        match unix_time() {
            Some(d) => {
                let secs: u64 = d.as_secs();
                let micros: u32 = d.subsec_micros();
                self.generate_at(secs, micros)
            },
            None => self.generate_at(0, 0),
        }
    }
}

} // verus!
