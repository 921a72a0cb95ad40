//! The format-usage statistics stub.
//!
//! The command surface exposes counters for the seven output-format codes,
//! but nothing persists them: reading always yields all zeroes and
//! recording a use is accepted as a no-op. That constant behaviour is the
//! documented contract of these commands and is kept here exactly.

use vstd::prelude::*;

verus! {

/// One counter per output-format code.
#[derive(Clone, Copy, PartialEq, Eq, Structural, Debug)]
#[allow(non_snake_case)]
pub struct FormatStats {
    pub d: u32,
    pub D: u32,
    pub t: u32,
    pub T: u32,
    pub f: u32,
    pub F: u32,
    pub R: u32,
}

/// The only value the stub ever reports.
pub open spec fn zero_stats() -> FormatStats {
    FormatStats { d: 0, D: 0, t: 0, T: 0, f: 0, F: 0, R: 0 }
}

/// Prepare the statistics backing store: the stub has none, so this always
/// succeeds without doing anything.
pub fn init_stats_db() -> (r: Result<(), String>)
    ensures
        r is Ok,
{
    Ok(())
}

/// Read the usage counters: always all zero, whatever was recorded before.
pub fn get_format_stats() -> (r: Result<FormatStats, String>)
    ensures
        r == Ok::<FormatStats, String>(zero_stats()),
{
    Ok(FormatStats { d: 0, D: 0, t: 0, T: 0, f: 0, F: 0, R: 0 })
}

/// Record one use of a format code: accepted and dropped, so a later read
/// still reports all zeroes.
pub fn increment_format_usage(format: &str) -> (r: Result<(), String>)
    ensures
        r is Ok,
{
    let _ = format;
    Ok(())
}

} // verus!
