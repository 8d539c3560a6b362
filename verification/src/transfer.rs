//! Byte accounting for one attempt in sized mode.
//!
//! The body is read in chunks; after each chunk the progress fraction is
//! known exactly, in basis points of the advertised total.

use vstd::prelude::*;
use vstd::arithmetic::div_mod::{lemma_div_is_ordered, lemma_multiply_divide_lt};
use crate::orchestrator::AttemptReport;

verus! {

/// The size of the buffer into which the body is read.
pub const CHUNK_SIZE: usize = 8192;

/// A full progress bar, in basis points.
pub const FULL: u32 = 10000;

/// The progress fraction `downloaded / total`, clamped to at most one and
/// rounded down to basis points. With no total to compare with it is zero.
pub open spec fn basis_points(downloaded: nat, total: nat) -> nat {
    if total == 0 {
        0
    } else if downloaded >= total {
        10000
    } else {
        downloaded * 10000 / total
    }
}

/// Progress never exceeds one and never falls as bytes arrive.
pub proof fn lemma_progress_monotone(earlier: nat, later: nat, total: nat)
    requires
        earlier <= later,
    ensures
        basis_points(earlier, total) <= basis_points(later, total) <= 10000,
{
    if total > 0 {
        if later < total {
            lemma_div_is_ordered((earlier * 10000) as int, (later * 10000) as int, total as int);
            lemma_multiply_divide_lt((later * 10000) as int, total as int, 10000);
        } else if earlier < total {
            lemma_multiply_divide_lt((earlier * 10000) as int, total as int, 10000);
        }
    }
}

/// Progress is complete exactly when a nonzero total has been reached.
pub proof fn lemma_progress_full(downloaded: nat, total: nat)
    ensures
        basis_points(downloaded, total) == 10000 <==> 0 < total <= downloaded,
{
    if 0 < total && downloaded < total {
        lemma_multiply_divide_lt((downloaded * 10000) as int, total as int, 10000);
    }
}

/// The progress fraction in basis points.
pub fn progress_basis_points(downloaded: u64, total: u64) -> (bp: u32)
    ensures
        bp == basis_points(downloaded as nat, total as nat),
        bp <= FULL,
{
    if total == 0 {
        0
    } else if downloaded >= total {
        FULL
    } else {
        proof {
            lemma_multiply_divide_lt((downloaded * 10000) as int, total as int, 10000);
        }
        let scaled: u128 = (downloaded as u128) * 10000;
        (scaled / (total as u128)) as u32
    }
}

/// The byte count of one attempt in sized mode.
#[derive(Clone, Copy, Debug, PartialEq, Eq, Structural)]
pub struct SizedTransfer {
    /// The advertised total size.
    pub total: u64,
    /// The bytes written so far in this attempt.
    pub downloaded: u64,
}

impl SizedTransfer {
    /// The progress fraction of this attempt, in basis points.
    pub open spec fn progress(self) -> nat {
        basis_points(self.downloaded as nat, self.total as nat)
    }

    /// The count at the start of an attempt: nothing written yet.
    pub fn new(total: u64) -> (t: SizedTransfer)
        ensures
            t == (SizedTransfer { total, downloaded: 0 }),
            t.progress() == 0,
    {
        proof {
            lemma_progress_full(0, total as nat);
            lemma_progress_monotone(0, 0, total as nat);
        }
        SizedTransfer { total, downloaded: 0 }
    }

    /// Whether another chunk of `len` bytes can be counted.
    pub fn has_room(&self, len: usize) -> (ok: bool)
        ensures
            ok == (self.downloaded + len <= u64::MAX),
    {
        len as u64 <= u64::MAX - self.downloaded
    }

    /// Counts a chunk of `len` bytes that was written to the file, and
    /// returns the progress reached.
    pub fn record_chunk(&mut self, len: usize) -> (bp: u32)
        requires
            old(self).downloaded + len <= u64::MAX,
        ensures
            final(self).total == old(self).total,
            final(self).downloaded == old(self).downloaded + len,
            bp == final(self).progress(),
            old(self).progress() <= bp <= FULL,
    {
        proof {
            lemma_progress_monotone(
                self.downloaded as nat,
                (self.downloaded + len) as nat,
                self.total as nat,
            );
        }
        self.downloaded = self.downloaded + len as u64;
        progress_basis_points(self.downloaded, self.total)
    }

    /// Whether the bytes counted so far make up the whole file.
    pub fn is_complete(&self) -> (done: bool)
        ensures
            done == (self.total == 0 || self.downloaded >= self.total),
            self.total > 0 ==> (done <==> self.progress() == FULL),
    {
        proof {
            lemma_progress_full(self.downloaded as nat, self.total as nat);
        }
        self.total == 0 || self.downloaded >= self.total
    }

    /// The report of an attempt whose stream has ended without error.
    pub fn finish(&self) -> (report: AttemptReport)
        ensures
            report == (AttemptReport::StreamEnded { bytes: self.downloaded }),
    {
        AttemptReport::StreamEnded { bytes: self.downloaded }
    }
}

} // verus!
