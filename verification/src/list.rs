//! Byte counts for people: the largest binary unit that the count reaches,
//! with one decimal.

use vstd::prelude::*;
use crate::text::{decimal, decimal_string, push_decimal};

verus! {

/// A storage device that can be flashed.
#[derive(Debug)]
pub struct UsbDevice {
    /// The device path (`/dev/sdb`, `/dev/disk2`, `\\.\PhysicalDrive1`).
    pub path: String,
    /// The device's size, for people.
    pub size_human: String,
    /// The device's model, empty when unknown.
    pub model: String,
}

/// The name of the `k`-th binary unit.
pub open spec fn binary_unit(k: nat) -> Seq<char> {
    if k == 0 {
        "B"@
    } else if k == 1 {
        "KiB"@
    } else if k == 2 {
        "MiB"@
    } else if k == 3 {
        "GiB"@
    } else {
        "TiB"@
    }
}

/// The number of bytes in the `k`-th binary unit, `1024^k`.
pub open spec fn unit_bytes(k: nat) -> nat
    decreases k,
{
    if k == 0 {
        1
    } else {
        1024 * unit_bytes((k - 1) as nat)
    }
}

/// The largest unit, up to TiB, that `bytes` reaches.
pub open spec fn unit_index(bytes: nat) -> nat {
    if bytes >= unit_bytes(4) {
        4
    } else if bytes >= unit_bytes(3) {
        3
    } else if bytes >= unit_bytes(2) {
        2
    } else if bytes >= unit_bytes(1) {
        1
    } else {
        0
    }
}

/// `bytes / unit` in tenths, rounded to the nearest tenth, ties to even.
pub open spec fn tenths(bytes: nat, unit: nat) -> nat {
    let q = bytes * 10 / unit;
    let r = bytes * 10 % unit;
    if 2 * r > unit || (2 * r == unit && q % 2 == 1) {
        q + 1
    } else {
        q
    }
}

/// `bytes` as a count of the largest binary unit that it reaches: whole
/// bytes below 1 KiB (`512 B`), otherwise with one decimal (`1.5 GiB`).
pub open spec fn human_text(bytes: nat) -> Seq<char> {
    let k = unit_index(bytes);
    if k == 0 {
        decimal(bytes) + " B"@
    } else {
        let t = tenths(bytes, unit_bytes(k));
        decimal(t / 10) + "."@ + decimal(t % 10) + " "@ + binary_unit(k)
    }
}

/// Formats a byte count for people, in B, KiB, MiB, GiB or TiB.
pub fn human_bytes(bytes: u64) -> (s: String)
    ensures
        s@ == human_text(bytes as nat),
{
    proof {
        reveal_with_fuel(unit_bytes, 5);
    }
    let (k, unit): (u64, u64) = if bytes >= 1099511627776 {
        (4, 1099511627776)
    } else if bytes >= 1073741824 {
        (3, 1073741824)
    } else if bytes >= 1048576 {
        (2, 1048576)
    } else if bytes >= 1024 {
        (1, 1024)
    } else {
        (0, 1)
    };
    assert(k == unit_index(bytes as nat) && unit == unit_bytes(k as nat));
    if k == 0 {
        let mut s = decimal_string(bytes);
        s.append(" B");
        return s;
    }
    let x: u128 = (bytes as u128) * 10;
    let p: u128 = unit as u128;
    let q: u128 = x / p;
    let r: u128 = x % p;
    assert(q * 1024 <= x) by (nonlinear_arith)
        requires
            q == x / p,
            p >= 1024,
            x >= 0,
    ;
    let t: u128 = if 2 * r > p || (2 * r == p && q % 2 == 1) {
        q + 1
    } else {
        q
    };
    assert(t == tenths(bytes as nat, unit as nat));
    let t: u64 = t as u64;
    let mut s = decimal_string(t / 10);
    s.append(".");
    push_decimal(&mut s, t % 10);
    s.append(" ");
    let name = if k == 1 {
        "KiB"
    } else if k == 2 {
        "MiB"
    } else if k == 3 {
        "GiB"
    } else {
        "TiB"
    };
    s.append(name);
    s
}

/// The line that shows a device in the device list: its path, its size and
/// its model (`Unknown` when empty), three spaces apart.
pub open spec fn device_line(d: UsbDevice) -> Seq<char> {
    d.path@ + "   "@ + d.size_human@ + "   "@ + (if d.model@.len() == 0 {
        "Unknown"@
    } else {
        d.model@
    })
}

/// Formats a device for the device list.
pub fn device_label(d: &UsbDevice) -> (s: String)
    ensures
        s@ == device_line(*d),
{
    let mut s = d.path.clone();
    s.append("   ");
    s.append(d.size_human.as_str());
    s.append("   ");
    if d.model.as_str().is_empty() {
        s.append("Unknown");
    } else {
        s.append(d.model.as_str());
    }
    s
}

} // verus!
