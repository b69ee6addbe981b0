//! The drain capability: the output sink a logger hierarchy writes to,
//! implemented by external collaborators, and the shared, concurrently
//! swappable slot that holds the hierarchy's current drain.

use vstd::prelude::*;

use crate::kv::BorrowedKeyValue;
use crate::kv::OwnedKeyValue;
use crate::record::RecordInfo;

verus! {

/// The failure indicator a drain may return.  `Logger::log` absorbs it:
/// a failing drain never surfaces past the logging call.
#[derive(Clone, Copy, Debug, PartialEq, Eq, Structural)]
pub struct DrainError;

/// The sink capability consumed by `Logger`.  A drain receives a mutable
/// scratch buffer, the record's metadata, the logger's inherited key-value
/// pairs and the call-site pairs, and reports success or failure.
///
/// Implementations must be safe to invoke concurrently from several
/// threads; `Logger` provides no serialization around the invocation, and
/// a drain must not itself trigger another logging call on the same thread
/// while it holds the scratch buffer.
pub trait Drain: Send + Sync {
    /// Write one logging record.  A failure is absorbed by `Logger::log`
    /// and the record is silently dropped.
    fn log(
        &self,
        buf: &mut Vec<u8>,
        info: &mut RecordInfo,
        logger_values: &[OwnedKeyValue],
        values: &[BorrowedKeyValue],
    ) -> Result<(), DrainError>;
}

/// The no-op drain: accepts and discards every record.  A fresh hierarchy
/// is seeded with it.
pub struct Discard;

impl Drain for Discard {
    fn log(
        &self,
        _buf: &mut Vec<u8>,
        _info: &mut RecordInfo,
        _logger_values: &[OwnedKeyValue],
        _values: &[BorrowedKeyValue],
    ) -> Result<(), DrainError> {
        Ok(())
    }
}

/// Build the no-op drain.
pub fn discard() -> Discard {
    Discard
}

/// A reference-counted handle to one installed drain.  The concrete drain
/// type is erased behind `Box<dyn Drain>`, a declaration Verus refuses, so
/// the handle hides it; the drain itself stays an unverified external
/// collaborator either way.
#[verifier::external_body]
pub struct DrainRef {
    inner: std::sync::Arc<Box<dyn Drain>>,
}

impl DrainRef {
    /// Relies on Rust's unsizing coercion and `Arc::new` alone: wraps the
    /// given drain, of any concrete type, into a reference-counted erased
    /// handle, without reading or altering it.
    #[verifier::external_body]
    pub fn new<D: Drain + 'static>(drain: D) -> DrainRef {
        DrainRef { inner: std::sync::Arc::new(Box::new(drain)) }
    }

    /// Relies on Rust's dynamic dispatch through `Box<dyn Drain>`: calls
    /// the held drain's `log` once and hands its result back unchanged.
    /// The drain is an arbitrary external collaborator, so nothing is
    /// stated of the result, the buffer, or the record afterwards.
    #[verifier::external_body]
    pub(crate) fn log(
        &self,
        buf: &mut Vec<u8>,
        info: &mut RecordInfo,
        logger_values: &[OwnedKeyValue],
        values: &[BorrowedKeyValue],
    ) -> Result<(), DrainError> {
        self.inner.log(buf, info, logger_values, values)
    }
}

impl Clone for DrainRef {
    /// Relies on `Arc::clone`: the clone refers to the same installed
    /// drain.
    #[verifier::external_body]
    fn clone(&self) -> Self {
        DrainRef { inner: std::sync::Arc::clone(&self.inner) }
    }
}

/// The one mutable slot a hierarchy shares: every logger derived from the
/// same root holds a reference to the same cell, which is why a swap
/// through any of them is observed by all of them.  Backed by crossbeam's
/// `ArcCell`, whose declaration Verus refuses (its content is the erased
/// `Box<dyn Drain>`), so the cell is hidden behind trusted methods.
///
/// The slot is interior-mutable and concurrently swappable, so which drain
/// a read observes depends on concurrent swaps; no method below can pin its
/// result to an earlier write.  What crossbeam's source shows — a reader
/// always obtains a fully installed drain, never a torn one, and a swap
/// returns the drain the slot held just before it — is stated in the
/// methods' doc comments and exercised by the crate's tests.
#[verifier::external_body]
pub(crate) struct DrainCell {
    cell: std::sync::Arc<crossbeam::sync::ArcCell<Box<dyn Drain>>>,
}

impl DrainCell {
    /// Relies on crossbeam's `ArcCell::new`: creates a fresh slot holding
    /// `initial`, shared with nobody yet.
    #[verifier::external_body]
    pub(crate) fn new(initial: DrainRef) -> DrainCell {
        DrainCell { cell: std::sync::Arc::new(crossbeam::sync::ArcCell::new(initial.inner)) }
    }

    /// Relies on crossbeam's `ArcCell::get`: returns a reference-counted
    /// snapshot of some drain fully installed in the slot by a completed
    /// `swap` (or the seed).
    #[verifier::external_body]
    pub(crate) fn get(&self) -> DrainRef {
        DrainRef { inner: self.cell.get() }
    }

    /// Relies on crossbeam's `ArcCell::set`: atomically installs `new` and
    /// returns the drain the slot held immediately before the swap.
    #[verifier::external_body]
    pub(crate) fn swap(&self, new: DrainRef) -> DrainRef {
        DrainRef { inner: self.cell.set(new.inner) }
    }

    /// Install `new`, discarding the previously held drain.
    pub(crate) fn set(&self, new: DrainRef) {
        let _ = self.swap(new);
    }
}

impl Clone for DrainCell {
    /// Relies on `Arc::clone`: the clone refers to the same slot, not a
    /// copy of it — this sharing is what makes drain swaps hierarchy-wide.
    #[verifier::external_body]
    fn clone(&self) -> Self {
        DrainCell { cell: std::sync::Arc::clone(&self.cell) }
    }
}

} // verus!
