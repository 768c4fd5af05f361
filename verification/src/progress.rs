//! Progress counting for a streaming download: a running byte counter
//! checked against the ten-percentage-point reporting rule. The counter
//! is a transparent decoration of the byte stream; it never alters the
//! data, it only counts what passed through.

use vstd::prelude::*;

verus! {

/// Running progress of one download: the total expected size (`-1`
/// meaning unknown or unreachable), the bytes consumed so far, and the
/// last percentage that was reported (the baseline starts at zero).
pub struct ProgressCounter {
    pub total_size: i64,
    pub bytes_downloaded: u64,
    pub last_percent: u64,
}

/// The progress percentage after `bytes` of `total` bytes, clamped at one
/// hundred when more than the expected total arrived.
pub open spec fn percent_spec(bytes: u64, total: i64) -> int
    recommends
        total > 0,
{
    if bytes <= total {
        (bytes * 100) / (total as int)
    } else {
        100
    }
}

/// The percentage is always between zero and one hundred.
pub proof fn lemma_percent_bounds(bytes: u64, total: i64)
    requires
        total > 0,
    ensures
        0 <= percent_spec(bytes, total) <= 100,
{
    if bytes <= total {
        assert((bytes as int * 100) / (total as int) <= 100) by (nonlinear_arith)
            requires
                0 < total as int,
                0 <= bytes as int <= total as int,
        ;
        assert((bytes as int * 100) / (total as int) >= 0) by (nonlinear_arith)
            requires
                0 < total as int,
                0 <= bytes as int,
        ;
    }
}

impl ProgressCounter {
    /// Reported percentages never exceed one hundred.
    pub open spec fn well_formed(self) -> bool {
        self.last_percent <= 100
    }

    /// The report that recording `n` more bytes emits, if any: the new
    /// percentage, only when it exceeds the last reported one by more
    /// than ten points, and never when the total size is unknown (or
    /// zero, which must not fault the percentage computation).
    pub open spec fn report_after(self, n: u64) -> Option<u64>
        recommends
            self.bytes_downloaded + n <= u64::MAX,
    {
        let b = (self.bytes_downloaded + n) as u64;
        if self.total_size > 0 && percent_spec(b, self.total_size) > self.last_percent + 10 {
            Some(percent_spec(b, self.total_size) as u64)
        } else {
            None
        }
    }

    /// The counter after recording `n` more bytes.
    pub open spec fn stepped(self, n: u64) -> ProgressCounter
        recommends
            self.bytes_downloaded + n <= u64::MAX,
    {
        ProgressCounter {
            total_size: self.total_size,
            bytes_downloaded: (self.bytes_downloaded + n) as u64,
            last_percent: match self.report_after(n) {
                Some(p) => p,
                None => self.last_percent,
            },
        }
    }

    /// Start counting against `total_size` expected bytes (`-1` unknown).
    pub fn start(total_size: i64) -> (c: ProgressCounter)
        ensures
            c.total_size == total_size,
            c.bytes_downloaded == 0,
            c.last_percent == 0,
            c.well_formed(),
    {
        ProgressCounter { total_size, bytes_downloaded: 0, last_percent: 0 }
    }

    /// Record `n` freshly consumed bytes; returns the percentage to
    /// report, when one is due. The byte counter never decreases, and a
    /// report is emitted only when the percentage rose by more than ten
    /// points since the last report.
    pub fn inc(&mut self, n: u64) -> (r: Option<u64>)
        requires
            old(self).bytes_downloaded + n <= u64::MAX,
            old(self).well_formed(),
        ensures
            *final (self) == old(self).stepped(n),
            r == old(self).report_after(n),
            final (self).bytes_downloaded == old(self).bytes_downloaded + n,
            final (self).bytes_downloaded >= old(self).bytes_downloaded,
            final (self).total_size == old(self).total_size,
            final (self).well_formed(),
            r matches Some(p) ==> p > old(self).last_percent + 10 && p <= 100 && final (self).last_percent == p,
            r is None ==> final (self).last_percent == old(self).last_percent,
    {
        self.bytes_downloaded = self.bytes_downloaded + n;
        if self.total_size > 0 {
            let t: u64 = self.total_size as u64;
            let eff: u64 = if self.bytes_downloaded <= t {
                self.bytes_downloaded
            } else {
                t
            };
            let per128: u128 = (eff as u128) * 100 / (t as u128);
            proof {
                lemma_percent_bounds(self.bytes_downloaded, self.total_size);
                if self.bytes_downloaded > t {
                    assert((t as int) * 100 / (t as int) == 100) by (nonlinear_arith)
                        requires
                            0 < t as int,
                    ;
                }
                assert(per128 as int == percent_spec(self.bytes_downloaded, self.total_size));
            }
            let per: u64 = per128 as u64;
            if per > self.last_percent + 10 {
                self.last_percent = per;
                return Some(per);
            }
        }
        None
    }
}

/// Two successive progress reports are spaced more than ten percentage
/// points apart, and the byte counter never decreases across reads.
pub proof fn lemma_reports_spaced(c: ProgressCounter, n1: u64, n2: u64)
    requires
        c.bytes_downloaded + n1 + n2 <= u64::MAX,
    ensures
        c.stepped(n1).bytes_downloaded >= c.bytes_downloaded,
        c.stepped(n1).stepped(n2).bytes_downloaded >= c.stepped(n1).bytes_downloaded,
        c.report_after(n1) matches Some(p1) ==> (c.stepped(n1).report_after(n2) matches Some(p2)
            ==> p2 > p1 + 10),
{
    if c.total_size > 0 {
        lemma_percent_bounds((c.bytes_downloaded + n1) as u64, c.total_size);
        lemma_percent_bounds((c.bytes_downloaded + n1 + n2) as u64, c.total_size);
    }
}

} // verus!
