//! The player's input flags, packed into one byte.
//!
//! A "pressing" flag records that a key is held. The two "moving" flags are
//! derived from the held keys: at most one of them is set by the functions
//! here, the key pressed last wins, and releasing it falls back to the other
//! key if that one is still held.

use vstd::prelude::*;

verus! {

pub const PRESSING_LEFT: u8 = 0b0000_0001;

pub const PRESSING_RIGHT: u8 = 0b0000_0010;

pub const MOVING_LEFT: u8 = 0b0000_0100;

pub const MOVING_RIGHT: u8 = 0b0000_1000;

pub const JUMPING: u8 = 0b0001_0000;

pub const PRESSING_DOWN: u8 = 0b0010_0000;

/// Every bit that stands for a flag.
pub const ALL_FLAGS: u8 = 0b0011_1111;

/// One movement flag.
#[derive(Copy, Clone, Debug, PartialEq, Eq, Structural)]
pub enum Flag {
    PressingLeft,
    PressingRight,
    MovingLeft,
    MovingRight,
    Jumping,
    PressingDown,
}

impl Flag {
    /// The bit that stands for this flag.
    pub open spec fn mask(self) -> u8 {
        match self {
            Flag::PressingLeft => PRESSING_LEFT,
            Flag::PressingRight => PRESSING_RIGHT,
            Flag::MovingLeft => MOVING_LEFT,
            Flag::MovingRight => MOVING_RIGHT,
            Flag::Jumping => JUMPING,
            Flag::PressingDown => PRESSING_DOWN,
        }
    }

    pub fn bit(self) -> (r: u8)
        ensures
            r == self.mask(),
    {
        match self {
            Flag::PressingLeft => PRESSING_LEFT,
            Flag::PressingRight => PRESSING_RIGHT,
            Flag::MovingLeft => MOVING_LEFT,
            Flag::MovingRight => MOVING_RIGHT,
            Flag::Jumping => JUMPING,
            Flag::PressingDown => PRESSING_DOWN,
        }
    }
}

/// The flags that a byte holds.
pub open spec fn flags_of(bits: u8) -> Set<Flag> {
    Set::new(|f: Flag| bits & f.mask() != 0)
}

/// What holds of the flags as long as only the key functions change them:
/// the player moves in at most one direction, only in the direction of a
/// held key, and in some direction while a key is held.
pub open spec fn keys_agree(m: Set<Flag>) -> bool {
    &&& !(m.contains(Flag::MovingLeft) && m.contains(Flag::MovingRight))
    &&& m.contains(Flag::MovingLeft) ==> m.contains(Flag::PressingLeft)
    &&& m.contains(Flag::MovingRight) ==> m.contains(Flag::PressingRight)
    &&& m.contains(Flag::PressingLeft) || m.contains(Flag::PressingRight) ==> m.contains(
        Flag::MovingLeft,
    ) || m.contains(Flag::MovingRight)
}

/// The flags after a press of the left key.
pub open spec fn pressed_left(m: Set<Flag>) -> Set<Flag> {
    m.insert(Flag::PressingLeft).insert(Flag::MovingLeft).remove(Flag::MovingRight)
}

/// The flags after a press of the right key.
pub open spec fn pressed_right(m: Set<Flag>) -> Set<Flag> {
    m.insert(Flag::PressingRight).insert(Flag::MovingRight).remove(Flag::MovingLeft)
}

/// The flags after the left key is released.
pub open spec fn released_left(m: Set<Flag>) -> Set<Flag> {
    let rest = m.remove(Flag::PressingLeft).remove(Flag::MovingLeft);
    if rest.contains(Flag::PressingRight) {
        rest.insert(Flag::MovingRight)
    } else {
        rest
    }
}

/// The flags after the right key is released.
pub open spec fn released_right(m: Set<Flag>) -> Set<Flag> {
    let rest = m.remove(Flag::PressingRight).remove(Flag::MovingRight);
    if rest.contains(Flag::PressingLeft) {
        rest.insert(Flag::MovingLeft)
    } else {
        rest
    }
}

proof fn lemma_single_bits(bits: u8, m: u8, k: u8)
    by (bit_vector)
    requires
        m == 1 || m == 2 || m == 4 || m == 8 || m == 16 || m == 32,
        k == 1 || k == 2 || k == 4 || k == 8 || k == 16 || k == 32,
    ensures
        ((bits | m) & k != 0) == (m == k || bits & k != 0),
        ((bits & !m) & k != 0) == (m != k && bits & k != 0),
        (bits & 0xC0 == 0) ==> ((bits | m) & 0xC0 == 0 && (bits & !m) & 0xC0 == 0),
        0u8 & k == 0,
        (bits & 0x3F) & k == bits & k,
        (bits & 0x3F) & 0xC0 == 0,
{
}

#[derive(Clone, Copy, Debug, PartialEq, Eq, Structural)]
pub struct Movement {
    bits: u8,
}

impl View for Movement {
    type V = Set<Flag>;

    closed spec fn view(&self) -> Set<Flag> {
        flags_of(self.bits)
    }
}

impl Movement {
    #[verifier::type_invariant]
    spec fn inv(self) -> bool {
        self.bits & 0xC0 == 0
    }

    /// The byte that holds the flags.
    pub closed spec fn spec_bits(self) -> u8 {
        self.bits
    }

    /// No flag.
    pub fn empty() -> (r: Movement)
        ensures
            r@ == Set::<Flag>::empty(),
            r.spec_bits() == 0,
    {
        proof {
            assert(0u8 & 0xC0 == 0) by (bit_vector);
            assert forall|f: Flag| !(#[trigger] flags_of(0u8).contains(f)) by {
                lemma_single_bits(0u8, f.mask(), f.mask());
            }
            assert(flags_of(0u8) =~= Set::<Flag>::empty());
        }
        Movement { bits: 0 }
    }

    /// The flags that `bits` holds; bits that stand for no flag are dropped.
    pub fn from_bits_truncate(bits: u8) -> (r: Movement)
        ensures
            r@ == flags_of(bits),
            r.spec_bits() == bits & ALL_FLAGS,
    {
        proof {
            assert forall|f: Flag| flags_of(bits & ALL_FLAGS).contains(f) == flags_of(
                bits,
            ).contains(f) by {
                lemma_single_bits(bits, f.mask(), f.mask());
            }
            assert(flags_of(bits & ALL_FLAGS) =~= flags_of(bits));
            lemma_single_bits(bits, 1, 1);
        }
        Movement { bits: bits & ALL_FLAGS }
    }

    pub fn bits(&self) -> (r: u8)
        ensures
            r == self.spec_bits(),
            flags_of(r) == self@,
            r & !ALL_FLAGS == 0,
    {
        proof {
            use_type_invariant(self);
            let b = self.bits;
            assert(b & 0xC0 == 0 ==> b & !0x3Fu8 == 0) by (bit_vector);
        }
        self.bits
    }

    pub fn contains(&self, flag: Flag) -> (r: bool)
        ensures
            r == self@.contains(flag),
    {
        self.bits & flag.bit() != 0
    }

    pub fn insert(&mut self, flag: Flag)
        ensures
            final(self)@ == old(self)@.insert(flag),
    {
        proof {
            use_type_invariant(&*self);
        }
        let bits: u8 = self.bits | flag.bit();
        proof {
            lemma_single_bits(self.bits, flag.mask(), flag.mask());
            assert forall|g: Flag| flags_of(bits).contains(g) == flags_of(self.bits).insert(
                flag,
            ).contains(g) by {
                lemma_single_bits(self.bits, flag.mask(), g.mask());
            }
            assert(flags_of(bits) =~= flags_of(self.bits).insert(flag));
        }
        self.bits = bits;
    }

    pub fn remove(&mut self, flag: Flag)
        ensures
            final(self)@ == old(self)@.remove(flag),
    {
        proof {
            use_type_invariant(&*self);
        }
        let bits: u8 = self.bits & !flag.bit();
        proof {
            lemma_single_bits(self.bits, flag.mask(), flag.mask());
            assert forall|g: Flag| flags_of(bits).contains(g) == flags_of(self.bits).remove(
                flag,
            ).contains(g) by {
                lemma_single_bits(self.bits, flag.mask(), g.mask());
            }
            assert(flags_of(bits) =~= flags_of(self.bits).remove(flag));
        }
        self.bits = bits;
    }

    pub fn moving_left(&self) -> (r: bool)
        ensures
            r == self@.contains(Flag::MovingLeft),
    {
        self.contains(Flag::MovingLeft)
    }

    pub fn moving_right(&self) -> (r: bool)
        ensures
            r == self@.contains(Flag::MovingRight),
    {
        self.contains(Flag::MovingRight)
    }

    pub fn press_left(&mut self)
        ensures
            final(self)@ == pressed_left(old(self)@),
    {
        self.insert(Flag::PressingLeft);
        self.insert(Flag::MovingLeft);
        self.remove(Flag::MovingRight);
    }

    pub fn release_left(&mut self)
        ensures
            final(self)@ == released_left(old(self)@),
    {
        self.remove(Flag::PressingLeft);
        self.remove(Flag::MovingLeft);
        if self.contains(Flag::PressingRight) {
            self.insert(Flag::MovingRight);
        }
    }

    pub fn press_right(&mut self)
        ensures
            final(self)@ == pressed_right(old(self)@),
    {
        self.insert(Flag::PressingRight);
        self.insert(Flag::MovingRight);
        self.remove(Flag::MovingLeft);
    }

    pub fn release_right(&mut self)
        ensures
            final(self)@ == released_right(old(self)@),
    {
        self.remove(Flag::PressingRight);
        self.remove(Flag::MovingRight);
        if self.contains(Flag::PressingLeft) {
            self.insert(Flag::MovingLeft);
        }
    }

    pub fn press_down(&mut self)
        ensures
            final(self)@ == old(self)@.insert(Flag::PressingDown),
    {
        self.insert(Flag::PressingDown);
    }

    pub fn release_down(&mut self)
        ensures
            final(self)@ == old(self)@.remove(Flag::PressingDown),
    {
        self.remove(Flag::PressingDown);
    }
}

/// Pressing left, then pressing right, then releasing right leaves the
/// player moving left and not right, whatever was held before.
pub proof fn lemma_release_falls_back_to_held_key(m: Set<Flag>)
    ensures
        released_right(pressed_right(pressed_left(m))).contains(Flag::MovingLeft),
        !released_right(pressed_right(pressed_left(m))).contains(Flag::MovingRight),
        released_right(pressed_right(pressed_left(m))).contains(Flag::PressingLeft),
        !released_right(pressed_right(pressed_left(m))).contains(Flag::PressingRight),
{
}

/// The mirror image: pressing right, then left, then releasing left leaves
/// the player moving right and not left.
pub proof fn lemma_release_falls_back_to_held_key_mirrored(m: Set<Flag>)
    ensures
        released_left(pressed_left(pressed_right(m))).contains(Flag::MovingRight),
        !released_left(pressed_left(pressed_right(m))).contains(Flag::MovingLeft),
{
}

/// A press leaves exactly one of the two moving flags set: the pressed key wins.
pub proof fn lemma_press_wins(m: Set<Flag>)
    ensures
        pressed_left(m).contains(Flag::MovingLeft) && !pressed_left(m).contains(Flag::MovingRight),
        pressed_right(m).contains(Flag::MovingRight) && !pressed_right(m).contains(
            Flag::MovingLeft,
        ),
{
}

/// The moving flags follow the held keys: this holds of no flags at all,
/// and the key functions, the down key and a jump keep it.
pub proof fn lemma_keys_keep_flags_in_agreement(m: Set<Flag>, f: Flag)
    requires
        keys_agree(m),
        f == Flag::Jumping || f == Flag::PressingDown,
    ensures
        keys_agree(Set::<Flag>::empty()),
        keys_agree(pressed_left(m)),
        keys_agree(pressed_right(m)),
        keys_agree(released_left(m)),
        keys_agree(released_right(m)),
        keys_agree(m.insert(f)),
        keys_agree(m.remove(f)),
{
}

/// The four key functions change neither the jumping flag nor the down key's.
pub proof fn lemma_keys_leave_other_flags(m: Set<Flag>, f: Flag)
    requires
        f == Flag::Jumping || f == Flag::PressingDown,
    ensures
        pressed_left(m).contains(f) == m.contains(f),
        pressed_right(m).contains(f) == m.contains(f),
        released_left(m).contains(f) == m.contains(f),
        released_right(m).contains(f) == m.contains(f),
{
}

} // verus!
