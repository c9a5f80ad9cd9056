//! The decisions of the command line tool: the target address, the kind of
//! bus, the device code of the host and the operations of a subcommand.
use vstd::prelude::*;
use crate::cd321x::Operation;
use crate::error::Error;
use crate::text::{
    has_prefix, find_char, hex_chars, hex_literal, parse_u16_radix, parse_u16_spec,
    starts_with, str_from_utf8, str_to_uppercase, unicode_uppercase, utf8_error_len_after,
    utf8_valid_up_to,
};
use vstd::utf8::{decode_utf8, valid_utf8};

verus! {

/// The address given on the command line: "0x" and hexadecimal digits, or
/// decimal digits.
pub open spec fn address_spec(s: Seq<char>) -> Result<u16, Error> {
    let r = if starts_with(s, seq!['0', 'x']) {
        parse_u16_spec(s.skip(2), 16)
    } else {
        parse_u16_spec(s, 10)
    };
    match r {
        Ok(v) => Ok(v),
        Err(k) => Err(Error::Parse(k)),
    }
}

/// Parses the target address: hexadecimal after "0x", decimal otherwise.
pub fn parse_address(addr: &str) -> (r: Result<u16, Error>)
    ensures
        r == address_spec(addr@),
{
    proof {
        reveal_strlit("0x");
    }
    assert("0x"@ =~= seq!['0', 'x']);
    let r = if has_prefix(addr, "0x") {
        let n = addr.unicode_len();
        let digits = addr.substring_char(2, n);
        assert(digits@ =~= addr@.skip(2));
        parse_u16_radix(digits, 16)
    } else {
        parse_u16_radix(addr, 10)
    };
    match r {
        Ok(v) => Ok(v),
        Err(k) => Err(Error::Parse(k)),
    }
}

/// A number written as "0x" and lowercase hexadecimal digits, the form in
/// which the SPMI files take numbers, reads back as that number.
pub proof fn law_address_reads_hex_literal(n: u16)
    ensures
        address_spec(hex_literal(n as nat).map_values(|b: u8| b as char)) == Ok::<u16, Error>(n),
{
    let s = hex_literal(n as nat).map_values(|b: u8| b as char);
    crate::text::law_hex_digits_parse_back(n);
    assert(s.subrange(0, 2) =~= seq!['0', 'x']);
    assert(s.skip(2) =~= hex_chars(n as nat));
}

/// The kind of bus that a controller sits on.
#[derive(Debug, Clone, Copy, PartialEq, Eq, Structural)]
pub enum BusKind {
    I2c,
    Spmi,
}

/// The bus that a device path names: an I2C device node or an SPMI
/// debugfs directory.
pub fn bus_kind(bus: &str) -> (r: Result<BusKind, Error>)
    ensures
        r == (if starts_with(bus@, "/dev/i2c-"@) {
            Ok(BusKind::I2c)
        } else if starts_with(bus@, "/sys/kernel/debug/spmi-"@) {
            Ok(BusKind::Spmi)
        } else {
            Err(Error::DeviceNotFound)
        }),
{
    if has_prefix(bus, "/dev/i2c-") {
        Ok(BusKind::I2c)
    } else if has_prefix(bus, "/sys/kernel/debug/spmi-") {
        Ok(BusKind::Spmi)
    } else {
        Err(Error::DeviceNotFound)
    }
}

/// The index of the first `c` in `s`, if any.
pub open spec fn first_index(s: Seq<char>, c: char) -> Option<int>
    decreases s.len(),
{
    if s.len() == 0 {
        None
    } else if s[0] == c {
        Some(0)
    } else {
        match first_index(s.drop_first(), c) {
            Some(i) => Some(i + 1),
            None => None,
        }
    }
}

pub(crate) proof fn lemma_first_index_of(s: Seq<char>, c: char, i: Option<int>)
    requires
        match i {
            Some(k) => 0 <= k < s.len() && s[k] == c && forall|j: int| 0 <= j < k ==> s[j] != c,
            None => forall|j: int| 0 <= j < s.len() ==> s[j] != c,
        },
    ensures
        first_index(s, c) == i,
    decreases s.len(),
{
    if s.len() > 0 && s[0] != c {
        let t = s.drop_first();
        let ti = match i {
            Some(k) => Some(k - 1),
            None => None,
        };
        assert forall|j: int| 0 <= j < t.len() && (i is None || j < ti->0) implies t[j] != c by {
            assert(t[j] == s[j + 1]);
        }
        lemma_first_index_of(t, c, ti);
    }
}

/// The "apple" in front of the first comma of the compatible string.
pub open spec fn apple() -> Seq<char> {
    seq!['a', 'p', 'p', 'l', 'e']
}

/// The device code found in the first ten bytes of the device tree's
/// "compatible" property ("apple,j314s..." gives "J314"): they must be UTF-8
/// (else the error tells how far they are), hold a comma, and name "apple"
/// before it (else the host is not compatible); the code is what follows the
/// comma, in uppercase.
pub open spec fn compatible_spec(compat: Seq<u8>) -> Result<Seq<char>, Error> {
    let head = compat.subrange(0, 10);
    if !valid_utf8(head) {
        Err(
            Error::Utf8 {
                valid_up_to: utf8_valid_up_to(head) as usize,
                error_len: utf8_error_len_after(head, utf8_valid_up_to(head)),
            },
        )
    } else {
        let s = decode_utf8(head);
        match first_index(s, ',') {
            None => Err(Error::Compatible),
            Some(k) => if s.subrange(0, k) == apple() {
                Ok(unicode_uppercase(s.subrange(k + 1, s.len() as int)))
            } else {
                Err(Error::Compatible)
            },
        }
    }
}

/// Finds the device code of the host in its "compatible" property (at
/// least ten bytes).
pub fn parse_compatible(compat: &[u8]) -> (r: Result<String, Error>)
    requires
        compat@.len() >= 10,
    ensures
        match r {
            Ok(code) => compatible_spec(compat@) == Ok::<Seq<char>, Error>(code@),
            Err(e) => compatible_spec(compat@) == Err::<Seq<char>, Error>(e),
        },
{
    let head = vstd::slice::slice_subrange(compat, 0, 10);
    let s = match str_from_utf8(head) {
        Ok(s) => s,
        Err((valid_up_to, error_len)) => {
            proof {
                crate::text::lemma_valid_up_to_unique(head@, valid_up_to as int);
            }
            return Err(Error::Utf8 { valid_up_to, error_len });
        },
    };
    let k = find_char(s, ',');
    proof {
        lemma_first_index_of(s@, ',', match k { Some(i) => Some(i as int), None => None });
    }
    let k = match k {
        Some(k) => k,
        None => return Err(Error::Compatible),
    };
    let manufacturer = s.substring_char(0, k);
    proof {
        reveal_strlit("apple");
    }
    assert("apple"@ =~= apple());
    let is_apple = has_prefix(manufacturer, "apple") && manufacturer.unicode_len() == 5;
    assert(is_apple == (manufacturer@ == apple())) by {
        if manufacturer@.len() == 5 {
            assert(manufacturer@.subrange(0, 5) =~= manufacturer@);
        }
    }
    if !is_apple {
        return Err(Error::Compatible);
    }
    let device = s.substring_char(k + 1, s.unicode_len());
    Ok(str_to_uppercase(device))
}

/// What a subcommand of the command line asks for.
#[derive(Debug, Clone, Copy, PartialEq, Eq, Structural)]
pub enum Subcommand {
    /// No subcommand, or one that does nothing by itself.
    Other,
    Dfu,
    Reboot,
    RebootSerial,
    RebootDebugUsb,
    Nop,
    Serial,
    DebugUsb,
    Disconnect,
}

/// The operations that a subcommand runs, in order.
pub open spec fn subcommand_operations(cmd: Subcommand) -> Seq<Operation> {
    match cmd {
        Subcommand::Other | Subcommand::Nop => seq![],
        Subcommand::Dfu => seq![Operation::Dfu],
        Subcommand::Reboot => seq![Operation::Reboot],
        Subcommand::RebootSerial => seq![Operation::RebootWait, Operation::Serial],
        Subcommand::RebootDebugUsb => seq![Operation::RebootWait, Operation::DebugUsb],
        Subcommand::Serial => seq![Operation::Serial],
        Subcommand::DebugUsb => seq![Operation::DebugUsb],
        Subcommand::Disconnect => seq![Operation::Disconnect],
    }
}

/// The operations that a subcommand runs, in order; the tool stops at the
/// first that fails.
pub fn operations(cmd: Subcommand) -> (r: Vec<Operation>)
    ensures
        r@ == subcommand_operations(cmd),
{
    let mut v: Vec<Operation> = Vec::new();
    match cmd {
        Subcommand::Other | Subcommand::Nop => {},
        Subcommand::Dfu => v.push(Operation::Dfu),
        Subcommand::Reboot => v.push(Operation::Reboot),
        Subcommand::RebootSerial => {
            v.push(Operation::RebootWait);
            v.push(Operation::Serial);
        },
        Subcommand::RebootDebugUsb => {
            v.push(Operation::RebootWait);
            v.push(Operation::DebugUsb);
        },
        Subcommand::Serial => v.push(Operation::Serial),
        Subcommand::DebugUsb => v.push(Operation::DebugUsb),
        Subcommand::Disconnect => v.push(Operation::Disconnect),
    }
    assert(v@ =~= subcommand_operations(cmd));
    v
}

/// Where the tool cannot look up connectors, none is ever found.
pub fn get_typec_dev_fromconnector(connector: &str) -> (r: Result<(String, u16), Error>)
    ensures
        r is Err && r->Err_0 == Error::DeviceNotFound,
{
    Err(Error::DeviceNotFound)
}

} // verus!
