//! Core protocol values used by link selection: priorities, reliability,
//! priority ranges, locators and peer identifiers.
use vstd::bytes::{spec_u128_from_le_bytes, u128_from_le_bytes};
use vstd::prelude::*;
use vstd::std_specs::cmp::PartialEqSpecImpl;

verus! {

/// Message priority, from the most urgent (`Control`, 0) to the least (`Background`, 7).
#[derive(Debug, Clone, Copy, PartialEq, Eq, Structural)]
pub enum Priority {
    Control,
    RealTime,
    InteractiveHigh,
    InteractiveLow,
    DataHigh,
    Data,
    DataLow,
    Background,
}

impl Priority {
    /// The numeric level of a priority (0 to 7).
    pub open spec fn level(self) -> u8 {
        match self {
            Priority::Control => 0,
            Priority::RealTime => 1,
            Priority::InteractiveHigh => 2,
            Priority::InteractiveLow => 3,
            Priority::DataHigh => 4,
            Priority::Data => 5,
            Priority::DataLow => 6,
            Priority::Background => 7,
        }
    }

    /// The default priority, `Data`.
    pub fn default_priority() -> (r: Priority)
        ensures
            r == Priority::Data,
    {
        Priority::Data
    }

    /// The numeric level of this priority.
    pub fn as_u8(self) -> (r: u8)
        ensures
            r == self.level(),
    {
        match self {
            Priority::Control => 0,
            Priority::RealTime => 1,
            Priority::InteractiveHigh => 2,
            Priority::InteractiveLow => 3,
            Priority::DataHigh => 4,
            Priority::Data => 5,
            Priority::DataLow => 6,
            Priority::Background => 7,
        }
    }

    /// The priority with numeric level `v`, if `v` is at most 7.
    pub fn try_from_u8(v: u8) -> (r: Option<Priority>)
        ensures
            r matches Some(p) ==> p.level() == v,
            r is Some <==> v <= 7,
    {
        match v {
            0 => Some(Priority::Control),
            1 => Some(Priority::RealTime),
            2 => Some(Priority::InteractiveHigh),
            3 => Some(Priority::InteractiveLow),
            4 => Some(Priority::DataHigh),
            5 => Some(Priority::Data),
            6 => Some(Priority::DataLow),
            7 => Some(Priority::Background),
            _ => None,
        }
    }
}

/// Delivery reliability of a link or message.
#[derive(Debug, Clone, Copy, PartialEq, Eq, Structural)]
pub enum Reliability {
    BestEffort,
    Reliable,
}

impl Reliability {
    /// `Reliable` for a reliable link, `BestEffort` otherwise.
    pub fn from_is_reliable(is_reliable: bool) -> (r: Reliability)
        ensures
            r == (if is_reliable { Reliability::Reliable } else { Reliability::BestEffort }),
    {
        if is_reliable {
            Reliability::Reliable
        } else {
            Reliability::BestEffort
        }
    }
}

/// An inclusive range of priorities, `start..=end`, never empty.
#[derive(Debug, Clone, Copy, PartialEq, Eq, Structural)]
pub struct PriorityRange {
    start: Priority,
    end: Priority,
}

impl PriorityRange {
    pub closed spec fn spec_start(self) -> Priority {
        self.start
    }

    pub closed spec fn spec_end(self) -> Priority {
        self.end
    }

    #[verifier::type_invariant]
    spec fn wf(self) -> bool {
        self.start.level() <= self.end.level()
    }

    /// The range `start..=end`.
    pub fn new(start: Priority, end: Priority) -> (r: PriorityRange)
        requires
            start.level() <= end.level(),
        ensures
            r.spec_start() == start,
            r.spec_end() == end,
    {
        PriorityRange { start, end }
    }

    pub fn start(&self) -> (r: Priority)
        ensures
            r == self.spec_start(),
    {
        self.start
    }

    pub fn end(&self) -> (r: Priority)
        ensures
            r == self.spec_end(),
    {
        self.end
    }

    /// Whether `p` lies in the range.
    pub open spec fn spec_contains(self, p: Priority) -> bool {
        self.spec_start().level() <= p.level() <= self.spec_end().level()
    }

    /// The number of priorities in the range.
    pub open spec fn spec_len(self) -> nat {
        (self.spec_end().level() - self.spec_start().level() + 1) as nat
    }

    pub fn contains(&self, p: Priority) -> (r: bool)
        ensures
            r == self.spec_contains(p),
    {
        let s = self.start.as_u8();
        let e = self.end.as_u8();
        let v = p.as_u8();
        s <= v && v <= e
    }

    pub fn len(&self) -> (r: usize)
        ensures
            r == self.spec_len(),
    {
        proof {
            use_type_invariant(self);
        }
        (self.end.as_u8() - self.start.as_u8() + 1) as usize
    }
}

/// The address of a link endpoint, such as `tcp/192.168.1.100:7447`.
#[derive(Debug)]
pub struct Locator {
    text: String,
}

impl View for Locator {
    type V = Seq<char>;

    closed spec fn view(&self) -> Seq<char> {
        self.text@
    }
}

impl Locator {
    /// The locator written as `s`.
    pub fn new(s: &str) -> (r: Locator)
        ensures
            r@ == s@,
    {
        Locator { text: s.to_owned() }
    }

    /// The text of the locator.
    pub fn as_str(&self) -> (r: &str)
        ensures
            r@ == self@,
    {
        self.text.as_str()
    }
}

impl Clone for Locator {
    fn clone(&self) -> (r: Self)
        ensures
            r@ == self@,
    {
        Locator { text: self.text.clone() }
    }
}

impl PartialEq for Locator {
    fn eq(&self, other: &Self) -> (r: bool) {
        self.text == other.text
    }
}

impl PartialEqSpecImpl for Locator {
    open spec fn obeys_eq_spec() -> bool {
        true
    }

    open spec fn eq_spec(&self, other: &Locator) -> bool {
        self@ == other@
    }
}

impl Eq for Locator {

}

/// Identifier of a Zenoh peer: a non-zero 128-bit value.
#[derive(Debug, Clone, Copy, PartialEq, Eq, Structural, Hash)]
pub struct ZenohIdProto {
    pub id: u128,
}

/// `bytes` followed by zero bytes up to 16 bytes.
pub open spec fn zero_padded_16(bytes: Seq<u8>) -> Seq<u8> {
    bytes + Seq::new((16 - bytes.len()) as nat, |i: int| 0u8)
}

impl ZenohIdProto {
    /// The identifier whose little-endian bytes are `bytes` (at most 16,
    /// padded with zeros); `None` when there are more than 16 bytes or the
    /// value is zero.
    pub fn try_from_bytes(bytes: &[u8]) -> (r: Option<ZenohIdProto>)
        ensures
            bytes@.len() > 16 ==> r is None,
            bytes@.len() <= 16 ==> {
                let v = spec_u128_from_le_bytes(zero_padded_16(bytes@));
                &&& (v == 0 ==> r is None)
                &&& (v != 0 ==> r == Some(ZenohIdProto { id: v }))
            },
    {
        if bytes.len() > 16 {
            return None;
        }
        let mut padded: Vec<u8> = Vec::new();
        let mut i: usize = 0;
        while i < 16
            invariant
                bytes@.len() <= 16,
                0 <= i <= 16,
                padded@.len() == i,
                forall|j: int| 0 <= j < i ==> #[trigger] padded@[j] == zero_padded_16(bytes@)[j],
            decreases 16 - i,
        {
            if i < bytes.len() {
                padded.push(bytes[i]);
            } else {
                padded.push(0u8);
            }
            i = i + 1;
        }
        assert(padded@ =~= zero_padded_16(bytes@));
        let v = u128_from_le_bytes(padded.as_slice());
        if v == 0 {
            None
        } else {
            Some(ZenohIdProto { id: v })
        }
    }
}

} // verus!
