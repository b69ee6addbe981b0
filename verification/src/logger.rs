//! Logger handles.
//!
//! Loggers are thread-safe and reference counted, so can be freely passed
//! around.  Each logger is built with a set of key-value pairs; child
//! loggers are built from existing loggers and copy all the key-value pairs
//! of their parents.  Loggers form hierarchies sharing a drain: setting a
//! drain on any logger changes it on all loggers in the hierarchy.

use vstd::assert_seqs_equal;
use vstd::prelude::*;

use crate::drain::Discard;
use crate::drain::Drain;
use crate::drain::DrainCell;
use crate::drain::DrainRef;
use crate::kv::BorrowedKeyValue;
use crate::kv::OwnedKeyValue;
use crate::level::Level;
use crate::record::RecordInfo;

verus! {

/// The key-value context of a logger reached from a root whose context is
/// `init` by one `new` call per element of `batches`, each appending that
/// batch: every batch lands after the pairs inherited so far, in order.
pub open spec fn chain_values(
    init: Seq<OwnedKeyValue>,
    batches: Seq<Seq<OwnedKeyValue>>,
) -> Seq<OwnedKeyValue>
    decreases batches.len(),
{
    if batches.len() == 0 {
        init
    } else {
        chain_values(init + batches[0], batches.drop_first())
    }
}

/// Law: for every sequence of `new` calls starting from one root, the
/// resulting logger's key-value sequence equals the root's initial sequence
/// concatenated, in order, with each intermediate call's appended values.
pub proof fn lemma_chain_values(init: Seq<OwnedKeyValue>, batches: Seq<Seq<OwnedKeyValue>>)
    ensures
        chain_values(init, batches) == init + batches.flatten(),
    decreases batches.len(),
{
    if batches.len() == 0 {
        assert_seqs_equal!(chain_values(init, batches) == init + batches.flatten());
    } else {
        lemma_chain_values(init + batches[0], batches.drop_first());
        assert_seqs_equal!(
            (init + batches[0]) + batches.drop_first().flatten()
                == init + batches.flatten()
        );
    }
}

/// An immutable, cheaply-cloneable logging handle: an ordered list of
/// inherited key-value pairs plus a shared reference to the hierarchy's
/// drain cell.
pub struct Logger {
    drain: DrainCell,
    values: Vec<OwnedKeyValue>,
}

impl Logger {
    /// The ordered key-value context this handle carries.
    pub closed spec fn spec_values(&self) -> Seq<OwnedKeyValue> {
        self.values@
    }

    /// Build a root logger: a fresh hierarchy whose drain cell is seeded
    /// with the no-op drain and whose context is `values`.  All children,
    /// their children and so on form one hierarchy sharing a common drain.
    pub fn new_root(values: &[OwnedKeyValue]) -> (r: Logger)
        ensures
            r.spec_values() == values@,
    {
        let drain = DrainCell::new(DrainRef::new(Discard));
        let mut owned: Vec<OwnedKeyValue> = Vec::new();
        let mut i: usize = 0;
        while i < values.len()
            invariant
                i <= values@.len(),
                owned@ == values@.subrange(0, i as int),
            decreases values@.len() - i,
        {
            owned.push(values[i].clone());
            proof {
                assert_seqs_equal!(owned@ == values@.subrange(0, i + 1));
            }
            i = i + 1;
        }
        proof {
            assert_seqs_equal!(owned@ == values@);
        }
        Logger { drain, values: owned }
    }

    /// Build a child logger: it copies all existing key-value pairs from
    /// the parent, appends `values` after them, and shares the parent's
    /// drain cell — not a copy of it — so a later drain swap through either
    /// handle is observed by both.
    pub fn new(&self, values: &[OwnedKeyValue]) -> (r: Logger)
        ensures
            r.spec_values() == self.spec_values() + values@,
    {
        let mut new_values = self.values.clone();
        proof {
            assert_seqs_equal!(new_values@ == self.values@);
        }
        new_values.extend_from_slice(values);
        proof {
            assert_seqs_equal!(new_values@ == self.values@ + values@);
        }
        Logger { drain: self.drain.clone(), values: new_values }
    }

    /// Install `drain` as the hierarchy's active drain, discarding the
    /// previous one.  Effective immediately for every logger in the
    /// hierarchy, already constructed or not.
    pub fn set_drain<D: Drain + 'static>(&self, drain: D) {
        self.drain.set(DrainRef::new(drain));
    }

    /// Install `drain` as the hierarchy's active drain and return the one
    /// active immediately before, so a caller can restore, chain, or
    /// inspect it.
    pub fn swap_drain(&self, drain: DrainRef) -> DrainRef {
        self.drain.swap(drain)
    }

    /// Log one record through the given scratch buffer: build the record's
    /// metadata, fetch the hierarchy's current drain, invoke it exactly
    /// once with the buffer, the metadata, this logger's inherited pairs
    /// and the call-site pairs, absorb any drain failure, and clear the
    /// buffer — on every path, so the buffer always comes back empty.
    pub fn log_to(&self, buf: &mut Vec<u8>, lvl: Level, msg: &str, values: &[BorrowedKeyValue])
        ensures
            final(buf)@.len() == 0,
    {
        let mut info = RecordInfo::new(lvl, msg);
        let drain = self.drain.get();
        let _ = drain.log(buf, &mut info, self.values.as_slice(), values);
        buf.clear();
    }

    /// Log one logging record.  Drain failures are absorbed: logging never
    /// propagates a failure into the caller's control flow.
    ///
    /// The scratch buffer here lives for this one call; a caller that logs
    /// repeatedly on one thread can amortize the allocation by handing its
    /// own reusable buffer to `log_to` instead.
    ///
    /// Use the level-specific functions instead.
    pub fn log(&self, lvl: Level, msg: &str, values: &[BorrowedKeyValue]) {
        let mut buf: Vec<u8> = Vec::with_capacity(128);
        self.log_to(&mut buf, lvl, msg, values);
    }

    /// Log a critical-level record.
    pub fn critical(&self, msg: &str, values: &[BorrowedKeyValue]) {
        self.log(Level::Critical, msg, values);
    }

    /// Log an error-level record.
    pub fn error(&self, msg: &str, values: &[BorrowedKeyValue]) {
        self.log(Level::Error, msg, values);
    }

    /// Log a warning-level record.
    pub fn warn(&self, msg: &str, values: &[BorrowedKeyValue]) {
        self.log(Level::Warning, msg, values);
    }

    /// Log an info-level record.
    pub fn info(&self, msg: &str, values: &[BorrowedKeyValue]) {
        self.log(Level::Info, msg, values);
    }

    /// Log a debug-level record.
    pub fn debug(&self, msg: &str, values: &[BorrowedKeyValue]) {
        self.log(Level::Debug, msg, values);
    }

    /// Log a trace-level record.
    pub fn trace(&self, msg: &str, values: &[BorrowedKeyValue]) {
        self.log(Level::Trace, msg, values);
    }
}

impl Clone for Logger {
    /// The clone carries the same key-value context and refers to the same
    /// drain cell as the original.
    fn clone(&self) -> (r: Self)
        ensures
            r.spec_values() == self.spec_values(),
    {
        let values = self.values.clone();
        proof {
            assert_seqs_equal!(values@ == self.values@);
        }
        Logger { drain: self.drain.clone(), values }
    }
}

} // verus!
