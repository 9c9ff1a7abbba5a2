//! The two-wire bus transport and the delay provider, as capability
//! interfaces supplied by the platform.
//!
//! The device is accessed strictly sequentially by a single owner, so the
//! behaviour of a bus handle is modelled as the sequence of transactions that
//! have completed on it, oldest first. Implementations of these traits are
//! platform code outside this crate and are not verified; every guarantee the
//! rest of the crate proves about wire traffic rests on the contracts stated
//! here, which record exactly one completed transaction per successful call
//! and none for a failed one.

use vstd::prelude::*;

verus! {

/// One completed transaction on the two-wire bus.
pub ghost enum Transaction {
    /// A write of `payload` to the device at 7-bit address `device`.
    Write { device: u8, payload: Seq<u8> },
    /// A write of `request` to the device at `device`, followed in the same
    /// transaction by a read of the bytes `response`.
    WriteRead { device: u8, request: Seq<u8>, response: Seq<u8> },
}

/// Whether an operation that took a history from `pre` to `post` issued no
/// write to the device: every transaction it appended is a write-then-read.
pub open spec fn no_writes_after(pre: Seq<Transaction>, post: Seq<Transaction>) -> bool {
    forall|i: int| pre.len() <= i < post.len() ==> !((#[trigger] post[i]) is Write)
}

/// A bus transport that can write bytes to a device, and write bytes and then
/// read a response within one transaction.
///
/// Transport failures are reported through the opaque error type and are
/// always propagated to the caller; no retry happens at this layer. A failed
/// call leaves no completed transaction in the model.
pub trait I2cBus: Sized {
    /// The transport's own, opaque error type.
    type BusError;

    /// The transactions completed on this handle, oldest first.
    spec fn transactions(&self) -> Seq<Transaction>;

    /// Write `payload` to the device at 7-bit address `device`.
    fn bus_write(&mut self, device: u8, payload: &Vec<u8>) -> (result: Result<
        (),
        Self::BusError,
    >)
        ensures
            result is Ok ==> final (self).transactions() == old(self).transactions().push(
                Transaction::Write { device, payload: payload@ },
            ),
            result is Err ==> final (self).transactions() == old(self).transactions(),
    ;

    /// Write `request` to the device at `device`, then read `read_count`
    /// bytes in the same transaction.
    fn bus_write_read(&mut self, device: u8, request: &Vec<u8>, read_count: usize) -> (result:
        Result<Vec<u8>, Self::BusError>)
        ensures
            result matches Ok(response) ==> response@.len() == read_count
                && final (self).transactions() == old(self).transactions().push(
                Transaction::WriteRead { device, request: request@, response: response@ },
            ),
            result is Err ==> final (self).transactions() == old(self).transactions(),
    ;
}

/// A provider of blocking (or suspending) delays, modelled as the sequence of
/// delays that have been requested, in milliseconds, oldest first.
pub trait DelayProvider: Sized {
    /// The delays requested so far, in milliseconds, oldest first.
    spec fn delays_ms(&self) -> Seq<u32>;

    /// Suspend for at least `ms` milliseconds.
    fn delay_ms(&mut self, ms: u32)
        ensures
            final (self).delays_ms() == old(self).delays_ms().push(ms),
    ;
}

} // verus!
