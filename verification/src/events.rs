//! Sets of readiness conditions.

use crate::text::{hex, push_hex};
use vstd::prelude::*;
use vstd::string::StringExecFns;

verus! {

/// One readiness condition. `Nothing` is the absence of any: it holds the
/// first place of the enumeration and is never a member of a set.
#[derive(Copy, Clone, Debug, PartialEq, Eq, Structural)]
pub enum Event {
    Nothing,
    Read,
    Write,
    Error,
    EdgeTriggered,
    HangUp,
    OneShot,
}

impl Event {
    /// Place of the condition in the enumeration, counted from zero.
    pub open spec fn position(self) -> u32 {
        match self {
            Event::Nothing => 0,
            Event::Read => 1,
            Event::Write => 2,
            Event::Error => 3,
            Event::EdgeTriggered => 4,
            Event::HangUp => 5,
            Event::OneShot => 6,
        }
    }

    /// The bit that stands for the condition in a set: the one at its place.
    pub open spec fn bit(self) -> u32 {
        1u32 << self.position()
    }

    /// The bits of the seven conditions, written out.
    pub proof fn lemma_bits()
        ensures
            Event::Nothing.bit() == 0x01,
            Event::Read.bit() == 0x02,
            Event::Write.bit() == 0x04,
            Event::Error.bit() == 0x08,
            Event::EdgeTriggered.bit() == 0x10,
            Event::HangUp.bit() == 0x20,
            Event::OneShot.bit() == 0x40,
    {
        assert(1u32 << 0u32 == 0x01 && 1u32 << 1u32 == 0x02 && 1u32 << 2u32 == 0x04 && 1u32 << 3u32
            == 0x08 && 1u32 << 4u32 == 0x10 && 1u32 << 5u32 == 0x20 && 1u32 << 6u32 == 0x40)
            by (bit_vector);
    }

    /// Place of the condition in the enumeration, counted from zero.
    pub fn ordinal(self) -> (n: u32)
        ensures
            n == self.position(),
    {
        match self {
            Event::Nothing => 0,
            Event::Read => 1,
            Event::Write => 2,
            Event::Error => 3,
            Event::EdgeTriggered => 4,
            Event::HangUp => 5,
            Event::OneShot => 6,
        }
    }

    /// The bit that stands for the condition in a set.
    pub fn mask(self) -> (m: u32)
        ensures
            m == self.bit(),
    {
        1u32 << self.ordinal()
    }
}

/// A set of readiness conditions, kept as one bit per condition. Its view
/// is the set of the conditions that it holds.
#[derive(Clone, Copy, Debug, PartialEq, Eq, Structural, Hash)]
pub struct Events {
    bits: u32,
}

impl View for Events {
    type V = Set<Event>;

    closed spec fn view(&self) -> Set<Event> {
        Set::new(|e: Event| e != Event::Nothing && self.bits & e.bit() != 0)
    }
}

impl Default for Events {
    /// The empty set.
    fn default() -> (r: Events)
        ensures
            r@ == Set::<Event>::empty(),
            r == Events::zero(),
    {
        Events::new()
    }
}

/// With no bit but those of the six conditions set, a word is zero exactly
/// when none of the six is set.
proof fn lemma_zero(b: u32)
    by (bit_vector)
    requires
        b & !0x7Eu32 == 0,
    ensures
        b == 0 <==> b & 0x02 == 0 && b & 0x04 == 0 && b & 0x08 == 0 && b & 0x10 == 0 && b & 0x20
            == 0 && b & 0x40 == 0,
{
}

/// The cleared word has no bit in common with any other.
proof fn lemma_clear(k: u32)
    by (bit_vector)
    ensures
        0u32 & k == 0,
{
}

/// Setting one of the six bits sets that bit and leaves the other five, and
/// every bit outside the six, as they were.
proof fn lemma_set(b: u32, m: u32)
    by (bit_vector)
    requires
        m == 0x02 || m == 0x04 || m == 0x08 || m == 0x10 || m == 0x20 || m == 0x40,
    ensures
        (b | m) & m != 0,
        m != 0x02 ==> (b | m) & 0x02 == b & 0x02,
        m != 0x04 ==> (b | m) & 0x04 == b & 0x04,
        m != 0x08 ==> (b | m) & 0x08 == b & 0x08,
        m != 0x10 ==> (b | m) & 0x10 == b & 0x10,
        m != 0x20 ==> (b | m) & 0x20 == b & 0x20,
        m != 0x40 ==> (b | m) & 0x40 == b & 0x40,
        b & !0x7Eu32 == 0 ==> (b | m) & !0x7Eu32 == 0,
{
}

impl Events {
    /// No bit is set but those of the six conditions.
    #[verifier::type_invariant]
    pub closed spec fn wf(self) -> bool {
        self.bits & !0x7Eu32 == 0
    }

    /// The word that holds the set: the bits of its members.
    pub closed spec fn word(self) -> u32 {
        self.bits
    }

    /// The set with every bit clear.
    pub closed spec fn zero() -> Events {
        Events { bits: 0 }
    }

    /// The set `self` with the condition `e` added.
    pub closed spec fn with(self, e: Event) -> Events {
        Events { bits: self.bits | e.bit() }
    }

    /// The set made by adding the conditions of `chain` to `self`, one
    /// after the other.
    pub open spec fn chained(self, chain: Seq<Event>) -> Events
        decreases chain.len(),
    {
        if chain.len() == 0 {
            self
        } else {
            self.chained(chain.drop_last()).with(chain.last())
        }
    }

    /// A set holds a condition exactly when the bit of the condition is
    /// set in its word, and a well-formed set has no other bit set.
    pub proof fn lemma_word(self)
        ensures
            forall|e: Event| #[trigger]
                self@.contains(e) <==> e != Event::Nothing && self.word() & e.bit() != 0,
            self.wf() <==> self.word() & !0x7Eu32 == 0,
            Events::zero().word() == 0,
            forall|e: Event| #[trigger] self.with(e).word() == self.word() | e.bit(),
    {
    }

    /// The cleared word is well formed and holds nothing.
    pub proof fn lemma_zero_view()
        ensures
            Events::zero().wf(),
            Events::zero()@ == Set::<Event>::empty(),
    {
        lemma_clear(!0x7Eu32);
        assert forall|e: Event| !(#[trigger] Events::zero()@.contains(e)) by {
            lemma_clear(e.bit());
        }
        assert(Events::zero()@ =~= Set::<Event>::empty());
    }

    /// Adding one of the six conditions keeps a set well formed and inserts
    /// the condition into what it holds.
    pub proof fn lemma_with_view(self, e: Event)
        requires
            e != Event::Nothing,
        ensures
            self.with(e)@ == self@.insert(e),
            self.wf() ==> self.with(e).wf(),
    {
        Event::lemma_bits();
        lemma_set(self.bits, e.bit());
        assert(self.with(e)@ =~= self@.insert(e));
    }

    /// A well-formed set is the cleared word exactly when it holds nothing,
    /// and two well-formed sets are the same value exactly when they hold
    /// the same conditions.
    pub proof fn lemma_view_injective(self, other: Events)
        requires
            self.wf(),
            other.wf(),
        ensures
            self@.is_empty() <==> self == Events::zero(),
            self@ == other@ <==> self == other,
            !self@.contains(Event::Nothing),
    {
        Event::lemma_bits();
        lemma_zero(self.bits);
        Events::lemma_zero_view();
        if self@ == other@ {
            assert(forall|e: Event| self@.contains(e) == other@.contains(e));
            assert(self@.contains(Event::Read) == other@.contains(Event::Read));
            assert(self@.contains(Event::Write) == other@.contains(Event::Write));
            assert(self@.contains(Event::Error) == other@.contains(Event::Error));
            assert(self@.contains(Event::EdgeTriggered) == other@.contains(Event::EdgeTriggered));
            assert(self@.contains(Event::HangUp) == other@.contains(Event::HangUp));
            assert(self@.contains(Event::OneShot) == other@.contains(Event::OneShot));
            lemma_same(self.bits, other.bits);
        }
        if self@.is_empty() {
            assert(!self@.contains(Event::Read));
            assert(!self@.contains(Event::Write));
            assert(!self@.contains(Event::Error));
            assert(!self@.contains(Event::EdgeTriggered));
            assert(!self@.contains(Event::HangUp));
            assert(!self@.contains(Event::OneShot));
        }
    }

    /// However the setters are chained from the empty set, in whatever
    /// order and however often, the set that they build holds exactly the
    /// conditions whose setters were called.
    pub proof fn law_chained_setters(chain: Seq<Event>)
        requires
            forall|i: int| 0 <= i < chain.len() ==> chain[i] != Event::Nothing,
        ensures
            Events::zero().chained(chain)@ == chain.to_set(),
            Events::zero().chained(chain).wf(),
        decreases chain.len(),
    {
        let built = Events::zero().chained(chain);
        if chain.len() == 0 {
            Events::lemma_zero_view();
            assert(built@ =~= chain.to_set());
        } else {
            let before = Events::zero().chained(chain.drop_last());
            Events::law_chained_setters(chain.drop_last());
            before.lemma_with_view(chain.last());
            assert forall|e: Event| built@.contains(e) <==> chain.to_set().contains(e) by {
                if chain.drop_last().contains(e) {
                    let front = chain.drop_last();
                    let i = choose|i: int| 0 <= i < front.len() && front[i] == e;
                    assert(chain[i] == e);
                }
                if chain.contains(e) {
                    let i = choose|i: int| 0 <= i < chain.len() && chain[i] == e;
                    if i < chain.len() - 1 {
                        assert(chain.drop_last()[i] == e);
                    }
                }
            }
            assert(built@ =~= chain.to_set());
        }
    }

    /// The empty set.
    pub fn new() -> (r: Events)
        ensures
            r@ == Set::<Event>::empty(),
            r == Events::zero(),
    {
        proof {
            Events::lemma_zero_view();
        }
        Events { bits: 0 }
    }

    /// Clears the set: the result is empty, whatever `self` held.
    pub fn none(self) -> (r: Events)
        ensures
            r@ == Set::<Event>::empty(),
            r == Events::zero(),
    {
        proof {
            Events::lemma_zero_view();
        }
        Events { bits: 0 }
    }

    /// The set with `Read` added.
    pub fn read(self) -> (r: Events)
        ensures
            r@ == self@.insert(Event::Read),
            r == self.with(Event::Read),
    {
        let m = Event::Read.mask();
        proof {
            use_type_invariant(&self);
            self.lemma_with_view(Event::Read);
        }
        Events { bits: self.bits | m }
    }

    /// The set with `Write` added.
    pub fn write(self) -> (r: Events)
        ensures
            r@ == self@.insert(Event::Write),
            r == self.with(Event::Write),
    {
        let m = Event::Write.mask();
        proof {
            use_type_invariant(&self);
            self.lemma_with_view(Event::Write);
        }
        Events { bits: self.bits | m }
    }

    /// The set with `Error` added.
    pub fn error(self) -> (r: Events)
        ensures
            r@ == self@.insert(Event::Error),
            r == self.with(Event::Error),
    {
        let m = Event::Error.mask();
        proof {
            use_type_invariant(&self);
            self.lemma_with_view(Event::Error);
        }
        Events { bits: self.bits | m }
    }

    /// Whether the set holds nothing.
    pub fn is_none(self) -> (r: bool)
        ensures
            r == self@.is_empty(),
    {
        proof {
            use_type_invariant(&self);
            self.lemma_view_injective(self);
        }
        self.bits == 0
    }

    /// Whether the set holds `Read`.
    pub fn has_read(self) -> (r: bool)
        ensures
            r == self@.contains(Event::Read),
    {
        (self.bits & Event::Read.mask()) != 0
    }

    /// Whether the set holds `Write`.
    pub fn has_write(self) -> (r: bool)
        ensures
            r == self@.contains(Event::Write),
    {
        (self.bits & Event::Write.mask()) != 0
    }

    /// Whether the set holds `Error`.
    pub fn has_error(self) -> (r: bool)
        ensures
            r == self@.contains(Event::Error),
    {
        (self.bits & Event::Error.mask()) != 0
    }

    /// The set as text: `0x` and the eight hexadecimal digits of its word.
    pub fn to_string(&self) -> (r: String)
        ensures
            r@ == "0x"@ + hex(self.word()),
    {
        let mut r = String::from_str("0x");
        push_hex(&mut r, self.bits);
        r
    }
}

/// Two words with no bit outside the six conditions, and the same six bits,
/// are the same word.
proof fn lemma_same(a: u32, b: u32)
    by (bit_vector)
    requires
        a & !0x7Eu32 == 0,
        b & !0x7Eu32 == 0,
        (a & 0x02 != 0) == (b & 0x02 != 0),
        (a & 0x04 != 0) == (b & 0x04 != 0),
        (a & 0x08 != 0) == (b & 0x08 != 0),
        (a & 0x10 != 0) == (b & 0x10 != 0),
        (a & 0x20 != 0) == (b & 0x20 != 0),
        (a & 0x40 != 0) == (b & 0x40 != 0),
    ensures
        a == b,
{
}

} // verus!
