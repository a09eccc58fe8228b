//! PCI addresses: the bus/device/function triple at which a virtual device
//! is attached, its textual form, and the fixed partition of logical slots
//! into addresses.

use crate::text::{
    bounded_value, chars_of, decimal, find_sep, lemma_decimal_digits,
    lemma_decimal_value, lemma_next_sep, next_sep, parse_unsigned, push_decimal,
};
use vstd::prelude::*;
use vstd::string::*;

verus! {

/// The largest device number on a PCI bus.
pub const MAX_DEVICE: u8 = 31;

/// The largest function number of a PCI device.
pub const MAX_FUNCTION: u8 = 7;

/// A bus/device/function triple: the mathematical model of a [`PciPath`].
pub struct Bdf {
    pub bus: u8,
    pub device: u8,
    pub function: u8,
}

impl Bdf {
    /// Whether the device and function numbers are ones that a PCI bus has.
    pub open spec fn in_range(self) -> bool {
        self.device <= MAX_DEVICE && self.function <= MAX_FUNCTION
    }

    /// The textual form of the triple: its three numbers in decimal, joined by dots.
    pub open spec fn text(self) -> Seq<char> {
        decimal(self.bus as nat) + seq!['.'] + decimal(self.device as nat) + seq!['.'] + decimal(
            self.function as nat,
        )
    }

    /// The triple that `s` denotes: exactly three dot-separated fields, each an
    /// unsigned decimal that fits in a byte, with the device and function in range.
    pub open spec fn parse(s: Seq<char>) -> Option<Bdf> {
        let i = next_sep(s, '.', 0);
        let j = next_sep(s, '.', i + 1);
        let k = next_sep(s, '.', j + 1);
        if i < s.len() && j < s.len() && k == s.len() {
            match (
                bounded_value(s.subrange(0, i), 255),
                bounded_value(s.subrange(i + 1, j), 255),
                bounded_value(s.subrange(j + 1, s.len() as int), 255),
            ) {
                (Some(bus), Some(device), Some(function)) => {
                    let bdf = Bdf { bus: bus as u8, device: device as u8, function: function as u8 };
                    if bdf.in_range() {
                        Some(bdf)
                    } else {
                        None
                    }
                },
                _ => None,
            }
        } else {
            None
        }
    }
}

/// Reading the textual form of an address gives back the address: what is
/// written out on one side is read as the same triple on the other.
pub proof fn lemma_text_round_trip(bdf: Bdf)
    requires
        bdf.in_range(),
    ensures
        Bdf::parse(bdf.text()) == Some(bdf),
{
    let a = decimal(bdf.bus as nat);
    let b = decimal(bdf.device as nat);
    let c = decimal(bdf.function as nat);
    let s = bdf.text();
    let i = a.len() as int;
    let j = i + 1 + b.len();
    let k = j + 1 + c.len();
    lemma_decimal_digits(bdf.bus as nat);
    lemma_decimal_digits(bdf.device as nat);
    lemma_decimal_digits(bdf.function as nat);
    lemma_decimal_value(bdf.bus as nat);
    lemma_decimal_value(bdf.device as nat);
    lemma_decimal_value(bdf.function as nat);
    lemma_next_sep(s, '.', 0, i);
    lemma_next_sep(s, '.', i + 1, j);
    lemma_next_sep(s, '.', j + 1, k);
    assert(s.subrange(0, i) =~= a);
    assert(s.subrange(i + 1, j) =~= b);
    assert(s.subrange(j + 1, s.len() as int) =~= c);
}

/// Two addresses with the same textual form are the same address.
pub proof fn lemma_text_injective(a: Bdf, b: Bdf)
    requires
        a.in_range(),
        b.in_range(),
        a.text() == b.text(),
    ensures
        a == b,
{
    lemma_text_round_trip(a);
    lemma_text_round_trip(b);
}

/// The address of a PCI-attached device. Every value has a device number of
/// at most 31 and a function number of at most 7.
#[derive(Clone, Copy, Debug, PartialEq, Eq, Hash)]
pub struct PciPath {
    bus: u8,
    device: u8,
    function: u8,
}

impl View for PciPath {
    type V = Bdf;

    closed spec fn view(&self) -> Bdf {
        Bdf { bus: self.bus, device: self.device, function: self.function }
    }
}

impl PciPath {
    #[verifier::type_invariant]
    spec fn numbers_in_range(self) -> bool {
        self.device <= MAX_DEVICE && self.function <= MAX_FUNCTION
    }

    /// Makes a path from its three numbers, or nothing where the device or
    /// function number is out of range.
    pub fn new(bus: u8, device: u8, function: u8) -> (path: Option<PciPath>)
        ensures
            (Bdf { bus, device, function }).in_range() ==> path is Some && path->0@ == (Bdf {
                bus,
                device,
                function,
            }),
            !(Bdf { bus, device, function }).in_range() ==> path is None,
    {
        if device > MAX_DEVICE || function > MAX_FUNCTION {
            None
        } else {
            Some(PciPath { bus, device, function })
        }
    }

    /// The bus number.
    pub fn bus(&self) -> (n: u8)
        ensures
            n == self@.bus,
    {
        self.bus
    }

    /// The device number.
    pub fn device(&self) -> (n: u8)
        ensures
            n == self@.device,
            n <= MAX_DEVICE,
    {
        proof {
            use_type_invariant(self);
        }
        self.device
    }

    /// The function number.
    pub fn function(&self) -> (n: u8)
        ensures
            n == self@.function,
            n <= MAX_FUNCTION,
    {
        proof {
            use_type_invariant(self);
        }
        self.function
    }

    /// Whether two paths are the same address.
    pub fn same(&self, other: &PciPath) -> (same: bool)
        ensures
            same == (self@ == other@),
    {
        self.bus == other.bus && self.device == other.device && self.function == other.function
    }

    /// The textual form of the path, as in `0.16.0`.
    pub fn to_string(&self) -> (text: String)
        ensures
            text@ == self@.text(),
    {
        let mut text = String::new();
        push_decimal(&mut text, self.bus);
        text.append(".");
        push_decimal(&mut text, self.device);
        text.append(".");
        push_decimal(&mut text, self.function);
        proof {
            reveal_strlit(".");
        }
        text
    }

    /// Reads a path from its textual form.
    pub fn from_str(s: &str) -> (path: Option<PciPath>)
        ensures
            match Bdf::parse(s@) {
                Some(bdf) => path is Some && path->0@ == bdf,
                None => path is None,
            },
    {
        let chars = chars_of(s);
        let n = chars.len();
        let i = find_sep(&chars, '.', 0);
        if i >= n {
            return None;
        }
        let j = find_sep(&chars, '.', i + 1);
        if j >= n {
            return None;
        }
        let k = find_sep(&chars, '.', j + 1);
        if k != n {
            return None;
        }
        let bus = parse_unsigned(&chars, 0, i, 255);
        let device = parse_unsigned(&chars, i + 1, j, 255);
        let function = parse_unsigned(&chars, j + 1, n, 255);
        match (bus, device, function) {
            (Some(bus), Some(device), Some(function)) => PciPath::new(
                bus as u8,
                device as u8,
                function as u8,
            ),
            _ => None,
        }
    }
}

/// The position of a device within its class, as a client names it.
#[derive(Clone, Copy, Debug, PartialEq, Eq)]
pub struct Slot(pub u8);

/// A class of PCI device. Device numbers on bus 0 are partitioned by class:
/// a device of class X in slot Y gets the Yth device number of X's partition.
#[derive(Clone, Copy, Debug, PartialEq, Eq, Structural)]
pub enum SlotType {
    Nic,
    Disk,
    CloudInit,
}

impl SlotType {
    /// The number of slots of this class.
    pub open spec fn slots(self) -> nat {
        match self {
            SlotType::Nic => 8,
            SlotType::Disk => 8,
            SlotType::CloudInit => 1,
        }
    }

    /// The device number of this class's slot 0.
    pub open spec fn first_device(self) -> nat {
        match self {
            SlotType::Nic => 0x08,
            SlotType::Disk => 0x10,
            SlotType::CloudInit => 0x18,
        }
    }
}

/// Whether `slot` is one of the slots that the class `ty` has.
pub open spec fn slot_valid(slot: u8, ty: SlotType) -> bool {
    slot < ty.slots()
}

/// The address of slot `slot` of class `ty`: bus 0, function 0, and the
/// slot's place in the class's partition of the device numbers.
pub open spec fn slot_bdf(slot: u8, ty: SlotType) -> Bdf
    recommends
        slot_valid(slot, ty),
{
    Bdf { bus: 0, device: (ty.first_device() + slot) as u8, function: 0 }
}

} // verus!
