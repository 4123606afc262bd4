use vstd::prelude::*;

verus! {

/// The decimal digit for `d`, below 10.
pub open spec fn digit_char(d: nat) -> char {
    if d == 0 { '0' }
    else if d == 1 { '1' }
    else if d == 2 { '2' }
    else if d == 3 { '3' }
    else if d == 4 { '4' }
    else if d == 5 { '5' }
    else if d == 6 { '6' }
    else if d == 7 { '7' }
    else if d == 8 { '8' }
    else { '9' }
}

/// `n` written in decimal, without leading zeros.
pub open spec fn decimal(n: nat) -> Seq<char>
    decreases n,
{
    if n < 10 {
        seq![digit_char(n)]
    } else {
        decimal(n / 10) + seq![digit_char(n % 10)]
    }
}

/// How [`Bytes`] shows `b` bytes: whole bytes below 4096, whole kibibytes
/// below 4096 KiB, whole mebibytes above.
pub open spec fn bytes_text(b: nat) -> Seq<char> {
    if b < 4096 {
        decimal(b) + " bytes"@
    } else if b / 1024 < 4096 {
        decimal(b / 1024) + "kb"@
    } else {
        decimal(b / 1024 / 1024) + "mb"@
    }
}

/// How [`MemoryStats`] shows its two figures.
pub open spec fn memory_stats_text(allocated: nat, resident: nat) -> Seq<char> {
    bytes_text(allocated) + " allocated "@ + bytes_text(resident) + " resident"@
}

/// Appends the digit `d`, below 10.
fn push_digit(s: &mut String, d: usize)
    requires
        d < 10,
    ensures
        final(s)@ == old(s)@ + seq![digit_char(d as nat)],
{
    proof {
        reveal_strlit("0");
        reveal_strlit("1");
        reveal_strlit("2");
        reveal_strlit("3");
        reveal_strlit("4");
        reveal_strlit("5");
        reveal_strlit("6");
        reveal_strlit("7");
        reveal_strlit("8");
        reveal_strlit("9");
    }
    if d == 0 {
        s.append("0");
    } else if d == 1 {
        s.append("1");
    } else if d == 2 {
        s.append("2");
    } else if d == 3 {
        s.append("3");
    } else if d == 4 {
        s.append("4");
    } else if d == 5 {
        s.append("5");
    } else if d == 6 {
        s.append("6");
    } else if d == 7 {
        s.append("7");
    } else if d == 8 {
        s.append("8");
    } else {
        s.append("9");
    }
}

/// Appends `n` in decimal.
pub fn push_decimal(s: &mut String, n: usize)
    ensures
        final(s)@ == old(s)@ + decimal(n as nat),
    decreases n,
{
    if n < 10 {
        push_digit(s, n);
    } else {
        push_decimal(s, n / 10);
        push_digit(s, n % 10);
        assert(final(s)@ =~= old(s)@ + decimal(n as nat));
    }
}

/// A number of bytes.
#[derive(Clone, Copy, Debug, Default)]
pub struct Bytes(pub usize);

impl Bytes {
    /// The text that shows the number of bytes.
    pub fn to_display_string(&self) -> (r: String)
        ensures
            r@ == bytes_text(self.0 as nat),
    {
        let bytes = self.0;
        let mut s = String::new();
        if bytes < 4096 {
            push_decimal(&mut s, bytes);
            s.append(" bytes");
            return s;
        }
        let kb = bytes / 1024;
        if kb < 4096 {
            push_decimal(&mut s, kb);
            s.append("kb");
            return s;
        }
        let mb = kb / 1024;
        push_decimal(&mut s, mb);
        s.append("mb");
        s
    }

    /// Adds `x` bytes.
    pub fn add_assign(&mut self, x: usize)
        requires
            old(self).0 + x <= usize::MAX,
        ensures
            final(self).0 == old(self).0 + x,
    {
        self.0 = self.0 + x;
    }
}

/// The allocator's error type.
#[verifier::external_type_specification]
#[verifier::external_body]
pub struct ExAllocatorStatsError(jemalloc_ctl::Error);

/// Calls `jemalloc_ctl::epoch::advance`, which refreshes the statistics
/// that the allocator caches. Nothing is stated of the result: it comes from
/// the allocator's state.
#[verifier::external_body]
fn advance_epoch() -> core::result::Result<u64, jemalloc_ctl::Error> {
    jemalloc_ctl::epoch::advance()
}

/// Calls `jemalloc_ctl::stats::allocated::read`, the number of bytes the
/// application holds. Nothing is stated of the result: it comes from the
/// allocator's state.
#[verifier::external_body]
fn read_allocated() -> core::result::Result<usize, jemalloc_ctl::Error> {
    jemalloc_ctl::stats::allocated::read()
}

/// Calls `jemalloc_ctl::stats::resident::read`, the number of bytes in
/// resident pages. Nothing is stated of the result: it comes from the
/// allocator's state.
#[verifier::external_body]
fn read_resident() -> core::result::Result<usize, jemalloc_ctl::Error> {
    jemalloc_ctl::stats::resident::read()
}

/// How much memory the allocator has handed out and how much is resident.
#[derive(Clone, Copy, Debug)]
pub struct MemoryStats {
    pub allocated: Bytes,
    pub resident: Bytes,
}

impl MemoryStats {
    /// The statistics for the two readings.
    pub fn from_readings(allocated: usize, resident: usize) -> (r: MemoryStats)
        ensures
            r.allocated.0 == allocated,
            r.resident.0 == resident,
    {
        MemoryStats { allocated: Bytes(allocated), resident: Bytes(resident) }
    }

    /// The statistics from the outcome of the three allocator calls: the
    /// refresh, and the readings of allocated and resident bytes (`None` for
    /// a refused reading). `None` when any of them was refused, and the two
    /// readings otherwise.
    pub fn from_outcomes(refreshed: bool, allocated: Option<usize>, resident: Option<usize>) -> (r: Option<MemoryStats>)
        ensures
            r is Some <==> (refreshed && allocated is Some && resident is Some),
            r matches Some(s) ==> s.allocated.0 == allocated->Some_0 && s.resident.0 == resident->Some_0,
    {
        if !refreshed {
            return None;
        }
        match (allocated, resident) {
            (Some(a), Some(b)) => Some(MemoryStats::from_readings(a, b)),
            _ => None,
        }
    }

    /// Reads the allocator's current statistics, refreshing them first;
    /// `None` when the allocator refuses one of the calls. The figures are
    /// what the allocator reports at the moment of the call.
    pub fn current() -> (r: Option<MemoryStats>) {
        let refreshed = match advance_epoch() {
            Ok(_) => true,
            Err(_) => false,
        };
        if !refreshed {
            return MemoryStats::from_outcomes(false, None, None);
        }
        let allocated = match read_allocated() {
            Ok(a) => Some(a),
            Err(_) => None,
        };
        let resident = match read_resident() {
            Ok(b) => Some(b),
            Err(_) => None,
        };
        MemoryStats::from_outcomes(refreshed, allocated, resident)
    }

    /// The text that shows the statistics.
    pub fn to_display_string(&self) -> (r: String)
        ensures
            r@ == memory_stats_text(self.allocated.0 as nat, self.resident.0 as nat),
    {
        let mut s = self.allocated.to_display_string();
        s.append(" allocated ");
        let resident = self.resident.to_display_string();
        s.append(resident.as_str());
        s.append(" resident");
        s
    }
}

} // verus!
