//! Progress tracker: the state a running download shares with its
//! observers. One writer (the downloading task) advances it; observers
//! only read. The byte counter never decreases, and the `done` flag is
//! terminal: once set it is never cleared.

use vstd::prelude::*;

verus! {

/// Live progress of one download: a monotonically non-decreasing byte
/// counter and a terminal completion flag.
#[derive(Clone, Copy, Debug)]
pub struct ProgressState {
    bytes_done: u64,
    done: bool,
}

impl ProgressState {
    /// The bytes written so far.
    pub closed spec fn spec_bytes_done(self) -> u64 {
        self.bytes_done
    }

    /// Whether the download has reached a terminal state.
    pub closed spec fn spec_done(self) -> bool {
        self.done
    }

    /// A fresh tracker: nothing transferred, not done. It is created and
    /// published before any byte is transferred, so an observer never
    /// races the first read.
    pub fn new() -> (r: ProgressState)
        ensures
            r.spec_bytes_done() == 0,
            !r.spec_done(),
    {
        ProgressState { bytes_done: 0, done: false }
    }

    /// The bytes written so far.
    pub fn bytes_done(&self) -> (r: u64)
        ensures
            r == self.spec_bytes_done(),
    {
        self.bytes_done
    }

    /// Whether the download has reached a terminal state.
    pub fn is_done(&self) -> (r: bool)
        ensures
            r == self.spec_done(),
    {
        self.done
    }

    /// Records `n` more bytes as durably written. The counter never
    /// decreases.
    pub fn record_chunk(&mut self, n: u64)
        requires
            !old(self).spec_done(),
            old(self).spec_bytes_done() + n <= u64::MAX,
        ensures
            final(self).spec_bytes_done() == old(self).spec_bytes_done() + n,
            final(self).spec_bytes_done() >= old(self).spec_bytes_done(),
            !final(self).spec_done(),
    {
        self.bytes_done = self.bytes_done + n;
    }

    /// Reconciles the counter to the true byte count of the file written.
    /// The counter never decreases.
    pub fn reconcile(&mut self, total: u64)
        requires
            !old(self).spec_done(),
            old(self).spec_bytes_done() <= total,
        ensures
            final(self).spec_bytes_done() == total,
            final(self).spec_bytes_done() >= old(self).spec_bytes_done(),
            !final(self).spec_done(),
    {
        self.bytes_done = total;
    }

    /// Marks the download complete: terminal, with the counter frozen at
    /// the reconciled byte count.
    pub fn complete(&mut self)
        ensures
            final(self).spec_bytes_done() == old(self).spec_bytes_done(),
            final(self).spec_done(),
    {
        self.done = true;
    }

    /// Marks the download failed: terminal, with the counter frozen where
    /// it stood.
    pub fn mark_failed(&mut self)
        ensures
            final(self).spec_bytes_done() == old(self).spec_bytes_done(),
            final(self).spec_done(),
    {
        self.done = true;
    }
}

} // verus!
