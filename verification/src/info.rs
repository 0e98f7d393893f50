//! What the info panel says about one entry: its kind, its size in a unit
//! that suits it, and the hours since it was last modified.

use vstd::prelude::*;
use vstd::string::*;
use crate::errors::{meta_error_text, MetaError};
use crate::text::{decimal, push_decimal, push_two_digits, two_digits};

verus! {

/// Bytes in the unit that sizes from `KB_THRESHOLD` on are shown in.
pub const KB_UNIT: u64 = 1024;

/// Bytes in the unit that sizes from `MB_THRESHOLD` on are shown in.
pub const MB_UNIT: u64 = 1_048_576;

/// The smallest size shown in KB.
pub const KB_THRESHOLD: u64 = 1_000;

/// The smallest size shown in MB.
pub const MB_THRESHOLD: u64 = 1_000_000;

/// A point in time: whole seconds since the epoch, and nanoseconds beyond
/// them.
#[derive(Clone, Copy, Debug, PartialEq, Eq, Structural)]
pub struct Timestamp {
    pub secs: u64,
    pub nanos: u32,
}

impl Timestamp {
    /// The point in time as one count of nanoseconds since the epoch.
    pub open spec fn total_nanos(self) -> nat {
        self.secs as nat * 1_000_000_000 + self.nanos as nat
    }
}

/// What the filesystem reports about one entry.
#[derive(Clone, Copy, Debug, PartialEq, Eq, Structural)]
pub struct EntryMeta {
    /// Whether the entry is a directory.
    pub is_dir: bool,
    /// Its size in bytes.
    pub size: u64,
    /// When it was last modified, where the platform can tell.
    pub modified: Option<Timestamp>,
}

/// The whole hours from `modified` to `now`, or `None` where `modified` lies
/// after `now`. An entry without a modification time counts as modified now.
pub open spec fn age_hours(modified: Option<Timestamp>, now: Timestamp) -> Option<nat> {
    match modified {
        None => Some(0nat),
        Some(m) => if m.total_nanos() > now.total_nanos() {
            None
        } else {
            Some(((now.total_nanos() - m.total_nanos()) / 1_000_000_000 / 3600) as nat)
        },
    }
}

/// `size` in hundredths of `unit`, rounded to the nearest hundredth; a value
/// that lies exactly between two hundredths goes to the even one.
pub open spec fn hundredths(size: nat, unit: nat) -> nat
    recommends
        unit > 0,
{
    let q = size * 100 / unit;
    let r = size * 100 % unit;
    if 2 * r > unit || (2 * r == unit && q % 2 == 1) {
        q + 1
    } else {
        q
    }
}

/// A count of hundredths as a numeral with two decimal places.
pub open spec fn fixed_two(h: nat) -> Seq<char> {
    decimal(h / 100) + "."@ + two_digits(h % 100)
}

/// The size as the panel shows it: bytes below `KB_THRESHOLD`, then KB, and
/// MB from `MB_THRESHOLD` on, the scaled ones with two decimal places.
pub open spec fn size_text(size: u64) -> Seq<char> {
    if size >= MB_THRESHOLD {
        fixed_two(hundredths(size as nat, MB_UNIT as nat)) + " MB"@
    } else if size >= KB_THRESHOLD {
        fixed_two(hundredths(size as nat, KB_UNIT as nat)) + " KB"@
    } else {
        decimal(size as nat) + " bytes"@
    }
}

/// The word for the kind of an entry.
pub open spec fn kind_text(is_dir: bool) -> Seq<char> {
    if is_dir {
        "Directory"@
    } else {
        "File"@
    }
}

/// The message for an entry whose modification time lies after the present.
pub open spec fn future_text() -> Seq<char> {
    "Error: The modified time is in the future."@
}

/// The whole text of the info panel for one entry.
pub open spec fn info_text(meta: Result<EntryMeta, MetaError>, now: Timestamp) -> Seq<char> {
    match meta {
        Err(e) => "Error accessing file: "@ + meta_error_text(e),
        Ok(m) => match age_hours(m.modified, now) {
            None => future_text(),
            Some(hours) => "Type: "@ + kind_text(m.is_dir) + "\nSize: "@ + size_text(m.size)
                + "\nModified: "@ + decimal(hours) + " hours ago"@,
        },
    }
}

/// Computes the whole hours from `modified` to `now`.
pub fn hours_since(modified: Option<Timestamp>, now: Timestamp) -> (age: Option<u64>)
    ensures
        match age {
            Some(hours) => age_hours(modified, now) == Some(hours as nat),
            None => age_hours(modified, now).is_none(),
        },
{
    match modified {
        None => Some(0),
        Some(m) => {
            let then: u128 = (m.secs as u128) * 1_000_000_000u128 + (m.nanos as u128);
            let present: u128 = (now.secs as u128) * 1_000_000_000u128 + (now.nanos as u128);
            if then > present {
                None
            } else {
                let hours: u128 = (present - then) / 1_000_000_000u128 / 3600u128;
                Some(hours as u64)
            }
        },
    }
}

/// Computes `size` in hundredths of `unit`.
pub fn scaled_hundredths(size: u64, unit: u64) -> (h: u128)
    requires
        unit > 0,
    ensures
        h as nat == hundredths(size as nat, unit as nat),
        h <= size as nat * 100,
{
    let scaled: u128 = (size as u128) * 100u128;
    let wide: u128 = unit as u128;
    let q: u128 = scaled / wide;
    let r: u128 = scaled % wide;
    assert(q <= scaled) by (nonlinear_arith)
        requires
            q == scaled / wide,
            wide > 0,
    ;
    if 2 * r > wide || (2 * r == wide && q % 2 == 1) {
        assert(q < scaled) by (nonlinear_arith)
            requires
                q == scaled / wide,
                r == scaled % wide,
                wide > 0,
                2 * r >= wide,
        ;
        q + 1
    } else {
        q
    }
}

/// Appends a size scaled to `unit`, with two decimal places.
fn push_scaled(out: &mut String, size: u64, unit: u64)
    requires
        unit > 0,
    ensures
        final(out)@ == old(out)@ + fixed_two(hundredths(size as nat, unit as nat)),
{
    let h: u128 = scaled_hundredths(size, unit);
    assert(h / 100 <= u64::MAX) by (nonlinear_arith)
        requires
            h <= size as nat * 100,
            size <= u64::MAX,
    ;
    push_decimal(out, (h / 100u128) as u64);
    out.append(".");
    push_two_digits(out, (h % 100u128) as u64);
    assert(final(out)@ =~= old(out)@ + fixed_two(hundredths(size as nat, unit as nat)));
}

/// Appends the size as the panel shows it.
pub fn push_size(out: &mut String, size: u64)
    ensures
        final(out)@ == old(out)@ + size_text(size),
{
    if size >= MB_THRESHOLD {
        push_scaled(out, size, MB_UNIT);
        out.append(" MB");
    } else if size >= KB_THRESHOLD {
        push_scaled(out, size, KB_UNIT);
        out.append(" KB");
    } else {
        push_decimal(out, size);
        out.append(" bytes");
    }
    assert(final(out)@ =~= old(out)@ + size_text(size));
}

/// The text of the info panel for an entry, from what the filesystem reported
/// about it and the present time.
///
/// A failed query gives a line that says so. A modification time after `now`
/// gives the message of `future_text`, never a negative or wrapped age.
pub fn get_file_info(meta: Result<EntryMeta, MetaError>, now: Timestamp) -> (info: String)
    ensures
        info@ == info_text(meta, now),
        match meta {
            Ok(m) => m.modified.is_some() && m.modified.unwrap().total_nanos()
                > now.total_nanos() ==> info@ == future_text(),
            Err(e) => info@ == "Error accessing file: "@ + meta_error_text(e),
        },
{
    match meta {
        Err(e) => {
            let mut info = String::from_str("Error accessing file: ");
            info.append(e.describe());
            info
        },
        Ok(m) => match hours_since(m.modified, now) {
            None => String::from_str("Error: The modified time is in the future."),
            Some(hours) => {
                let mut info = String::from_str("Type: ");
                if m.is_dir {
                    info.append("Directory");
                } else {
                    info.append("File");
                }
                info.append("\nSize: ");
                push_size(&mut info, m.size);
                info.append("\nModified: ");
                push_decimal(&mut info, hours);
                info.append(" hours ago");
                assert(info@ =~= info_text(meta, now));
                info
            },
        },
    }
}

} // verus!
