//! A Bluetooth device as the dashboard sees it: its address and the flags
//! shown in the device table.
//!
//! Talking to the adapter happens outside the library; a `Device` carries
//! the already-read plain values, keyed by the 48-bit address.

use vstd::prelude::*;
use vstd::string::StringExecFns;

verus! {

/// Snapshot of one Bluetooth device.
#[derive(Debug)]
pub struct Device {
    /// The 48-bit device address.
    pub address: u64,
    pub alias: String,
    pub is_paired: bool,
    pub is_connected: bool,
    pub is_trusted: bool,
    pub battery_percentage: Option<u8>,
}

/// The text a boolean flag shows in a table cell.
pub open spec fn bool_label(b: bool) -> Seq<char> {
    if b {
        "true"@
    } else {
        "false"@
    }
}

/// The character for a single hexadecimal digit, upper case.
pub open spec fn hex_digit_char(d: int) -> char {
    if d == 0 {
        '0'
    } else if d == 1 {
        '1'
    } else if d == 2 {
        '2'
    } else if d == 3 {
        '3'
    } else if d == 4 {
        '4'
    } else if d == 5 {
        '5'
    } else if d == 6 {
        '6'
    } else if d == 7 {
        '7'
    } else if d == 8 {
        '8'
    } else if d == 9 {
        '9'
    } else if d == 10 {
        'A'
    } else if d == 11 {
        'B'
    } else if d == 12 {
        'C'
    } else if d == 13 {
        'D'
    } else if d == 14 {
        'E'
    } else {
        'F'
    }
}

/// One byte printed as two hexadecimal digits.
pub open spec fn byte_hex(b: int) -> Seq<char> {
    seq![hex_digit_char(b / 16), hex_digit_char(b % 16)]
}

/// The text of a 48-bit device address: its six bytes, highest first, as
/// two hexadecimal digits each, joined by colons.
pub open spec fn address_label_spec(a: u64) -> Seq<char> {
    byte_hex((a as int / 0x10000000000) % 256) + seq![':'] + byte_hex(
        (a as int / 0x100000000) % 256,
    ) + seq![':'] + byte_hex((a as int / 0x1000000) % 256) + seq![':'] + byte_hex(
        (a as int / 0x10000) % 256,
    ) + seq![':'] + byte_hex((a as int / 0x100) % 256) + seq![':'] + byte_hex(a as int % 256)
}

/// The static text of one hexadecimal digit.
fn hex_str(d: u64) -> (r: &'static str)
    requires
        d < 16,
    ensures
        r@ == seq![hex_digit_char(d as int)],
{
    proof {
        reveal_strlit("0");
        reveal_strlit("1");
        reveal_strlit("2");
        reveal_strlit("3");
        reveal_strlit("4");
        reveal_strlit("5");
        reveal_strlit("6");
        reveal_strlit("7");
        reveal_strlit("8");
        reveal_strlit("9");
        reveal_strlit("A");
        reveal_strlit("B");
        reveal_strlit("C");
        reveal_strlit("D");
        reveal_strlit("E");
        reveal_strlit("F");
    }
    match d {
        0 => "0",
        1 => "1",
        2 => "2",
        3 => "3",
        4 => "4",
        5 => "5",
        6 => "6",
        7 => "7",
        8 => "8",
        9 => "9",
        10 => "A",
        11 => "B",
        12 => "C",
        13 => "D",
        14 => "E",
        _ => "F",
    }
}

/// Append one byte as two hexadecimal digits.
fn push_byte_hex(out: &mut String, b: u64)
    requires
        b < 256,
    ensures
        final(out)@ == old(out)@ + byte_hex(b as int),
{
    out.append(hex_str(b / 16));
    out.append(hex_str(b % 16));
    proof {
        assert(out@ =~= old(out)@ + byte_hex(b as int));
    }
}

/// The table cell for a 48-bit device address.
pub fn address_label(address: u64) -> (r: String)
    ensures
        r@ == address_label_spec(address),
{
    let mut out = String::new();
    push_byte_hex(&mut out, (address / 0x10000000000) % 256);
    out.append(":");
    push_byte_hex(&mut out, (address / 0x100000000) % 256);
    out.append(":");
    push_byte_hex(&mut out, (address / 0x1000000) % 256);
    out.append(":");
    push_byte_hex(&mut out, (address / 0x10000) % 256);
    out.append(":");
    push_byte_hex(&mut out, (address / 0x100) % 256);
    out.append(":");
    push_byte_hex(&mut out, address % 256);
    proof {
        reveal_strlit(":");
        assert(out@ =~= address_label_spec(address));
    }
    out
}

impl Device {
    pub fn new(
        address: u64,
        alias: String,
        is_paired: bool,
        is_connected: bool,
        is_trusted: bool,
        battery_percentage: Option<u8>,
    ) -> (r: Device)
        ensures
            r.address == address,
            r.alias == alias,
            r.is_paired == is_paired,
            r.is_connected == is_connected,
            r.is_trusted == is_trusted,
            r.battery_percentage == battery_percentage,
    {
        Device { address, alias, is_paired, is_connected, is_trusted, battery_percentage }
    }

    /// The columns a device shows in the device table: alias, address,
    /// and the paired, connected and trusted flags.
    pub fn data(&self) -> (r: Vec<String>)
        ensures
            r@.len() == 5,
            r@[0] == self.alias,
            r@[1]@ == address_label_spec(self.address),
            r@[2]@ == bool_label(self.is_paired),
            r@[3]@ == bool_label(self.is_connected),
            r@[4]@ == bool_label(self.is_trusted),
    {
        let mut row: Vec<String> = Vec::new();
        row.push(self.alias.clone());
        row.push(address_label(self.address));
        row.push(flag_label(self.is_paired));
        row.push(flag_label(self.is_connected));
        row.push(flag_label(self.is_trusted));
        row
    }
}

/// The table cell for a boolean flag.
fn flag_label(b: bool) -> (r: String)
    ensures
        r@ == bool_label(b),
{
    if b {
        String::from_str("true")
    } else {
        String::from_str("false")
    }
}

impl Clone for Device {
    fn clone(&self) -> (r: Self)
        ensures
            r == *self,
    {
        Device {
            address: self.address,
            alias: self.alias.clone(),
            is_paired: self.is_paired,
            is_connected: self.is_connected,
            is_trusted: self.is_trusted,
            battery_percentage: self.battery_percentage,
        }
    }
}

/// The entry in the root menu that opens the Bluetooth device table.
#[derive(Clone, Debug)]
pub struct BluetoothItem;

} // verus!
