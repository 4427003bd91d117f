use vstd::prelude::*;

verus! {

/// A length of time as the kernel takes it.
#[derive(Clone, Copy, Debug, PartialEq, Eq)]
pub struct Timespec {
    pub tv_sec: i64,
    pub tv_nsec: i64,
}

/// The length of time of `secs` whole seconds and `subsec_nanos` nanoseconds.
///
/// Seconds past `i64::MAX` wrap around to negative numbers.
pub fn make_timespec(secs: u64, subsec_nanos: u32) -> (timespec: Timespec)
    ensures
        secs <= i64::MAX ==> timespec.tv_sec == secs,
        secs > i64::MAX ==> timespec.tv_sec == secs - 0x1_0000_0000_0000_0000,
        timespec.tv_nsec == subsec_nanos,
{
    assert(secs > 0x7fff_ffff_ffff_ffffu64 ==> (secs as i64) == secs - 0x1_0000_0000_0000_0000)
        by (bit_vector);
    Timespec { tv_sec: secs as i64, tv_nsec: subsec_nanos as i64 }
}

} // verus!
