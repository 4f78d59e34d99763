use vstd::prelude::*;

verus! {

/// One of the eight buttons of a pad, in the order the pad shifts them out.
#[derive(Clone, Copy, Debug, PartialEq, Eq, Structural)]
pub enum Button {
    A,
    B,
    Select,
    Start,
    Up,
    Down,
    Left,
    Right,
}

/// Position of a button's bit in the pad's state byte.
pub open spec fn button_bit(b: Button) -> u8 {
    match b {
        Button::A => 0,
        Button::B => 1,
        Button::Select => 2,
        Button::Start => 3,
        Button::Up => 4,
        Button::Down => 5,
        Button::Left => 6,
        Button::Right => 7,
    }
}

/// The name of a button.
pub open spec fn button_name(b: Button) -> Seq<char> {
    match b {
        Button::A => "A"@,
        Button::B => "B"@,
        Button::Select => "Select"@,
        Button::Start => "Start"@,
        Button::Up => "Up"@,
        Button::Down => "Down"@,
        Button::Left => "Left"@,
        Button::Right => "Right"@,
    }
}

/// Bit `i` of a byte.
pub open spec fn bit_of(x: u8, i: u8) -> bool {
    (x >> i) & 1 == 1
}

impl Button {
    /// Bit position of the button in the state byte.
    pub fn bit(self) -> (r: u8)
        ensures
            r == button_bit(self),
            r < 8,
    {
        match self {
            Button::A => 0,
            Button::B => 1,
            Button::Select => 2,
            Button::Start => 3,
            Button::Up => 4,
            Button::Down => 5,
            Button::Left => 6,
            Button::Right => 7,
        }
    }

    /// The button's name.
    pub fn name(self) -> (r: &'static str)
        ensures
            r@ == button_name(self),
    {
        match self {
            Button::A => "A",
            Button::B => "B",
            Button::Start => "Start",
            Button::Select => "Select",
            Button::Up => "Up",
            Button::Right => "Right",
            Button::Down => "Down",
            Button::Left => "Left",
        }
    }
}

/// A standard pad: a strobe latch, an 8-bit shift register and the live
/// button mask (bit 0 is A, bit 7 is Right).
#[derive(Clone, Copy, Debug, PartialEq, Eq, Structural)]
pub struct Controller {
    pub strobe: bool,
    pub shifter: u8,
    pub state: u8,
}

/// The pad after a write of `val` to its strobe register.
pub open spec fn strobe_written(c: Controller, val: u8) -> Controller {
    Controller {
        strobe: val & 1 != 0,
        shifter: if c.strobe && val & 1 == 0 {
            c.state
        } else {
            c.shifter
        },
        state: c.state,
    }
}

/// The bit a read of the serial line returns.
pub open spec fn read_bit(c: Controller) -> u8 {
    if c.strobe {
        c.state & 1
    } else {
        c.shifter & 1
    }
}

/// The pad after a read of its serial line.
pub open spec fn after_read(c: Controller) -> Controller {
    if c.strobe {
        c
    } else {
        Controller { shifter: 0x80u8 | (c.shifter >> 1u8), ..c }
    }
}

/// The pad after `k` reads of its serial line.
pub open spec fn after_reads(c: Controller, k: nat) -> Controller
    decreases k,
{
    if k == 0 {
        c
    } else {
        after_read(after_reads(c, (k - 1) as nat))
    }
}

/// What the shift register holds after `k` shifts of the latched byte `s`:
/// the remaining bits of `s`, with ones filled in from the top.
pub open spec fn shifted(s: u8, k: u8) -> u8 {
    if k >= 8 {
        0xFFu8
    } else {
        (s >> k) | !(0xFFu8 >> k)
    }
}

proof fn lemma_shift_step(s: u8, k: u8)
    requires
        k < 8,
    ensures
        shifted(s, (k + 1) as u8) == 0x80u8 | (shifted(s, k) >> 1u8),
        shifted(s, k) & 1 == (s >> k) & 1,
{
    let t = shifted(s, k);
    assert(t == (s >> k) | !(0xFFu8 >> k));
    if k < 7 {
        let k1 = (k + 1) as u8;
        assert(((s >> k1) | !(0xFFu8 >> k1)) == 0x80u8 | (t >> 1u8)) by (bit_vector)
            requires
                k < 7,
                k1 == k + 1,
                t == (s >> k) | !(0xFFu8 >> k),
        ;
    } else {
        assert(0xFFu8 == 0x80u8 | (t >> 1u8)) by (bit_vector)
            requires
                k == 7,
                t == (s >> k) | !(0xFFu8 >> k),
        ;
    }
    assert(t & 1 == (s >> k) & 1) by (bit_vector)
        requires
            k < 8,
            t == (s >> k) | !(0xFFu8 >> k),
    ;
}

proof fn lemma_reads_shift(c: Controller, k: nat)
    requires
        !c.strobe,
    ensures
        !after_reads(c, k).strobe,
        after_reads(c, k).state == c.state,
        after_reads(c, k).shifter == shifted(c.shifter, if k >= 8 { 8u8 } else { k as u8 }),
    decreases k,
{
    if k > 0 {
        let j = (k - 1) as nat;
        lemma_reads_shift(c, j);
        if j < 8 {
            lemma_shift_step(c.shifter, j as u8);
        } else {
            assert(0x80u8 | (0xFFu8 >> 1u8) == 0xFFu8) by (bit_vector);
        }
    } else {
        let x = c.shifter;
        assert(x >> 0u8 | !(0xFFu8 >> 0u8) == x) by (bit_vector);
    }
}

/// After a write of 1 and then 0 to the strobe register, the `k`-th read
/// (counting from 0) returns button `k`'s bit for the first eight reads, in
/// the order A, B, Select, Start, Up, Down, Left, Right, and 1 from then on.
pub proof fn lemma_latch_then_read(c: Controller, k: nat)
    ensures
        read_bit(after_reads(strobe_written(strobe_written(c, 1), 0), k)) == if k < 8 {
            (c.state >> (k as u8)) & 1
        } else {
            1u8
        },
{
    let l = strobe_written(strobe_written(c, 1), 0);
    assert(1u8 & 1 != 0 && 0u8 & 1 == 0) by (bit_vector);
    assert(l.shifter == c.state && !l.strobe);
    lemma_reads_shift(l, k);
    if k < 8 {
        lemma_shift_step(c.state, k as u8);
    } else {
        assert(0xFFu8 & 1 == 1) by (bit_vector);
    }
}

impl Controller {
    /// A pad at power-on: strobe low, nothing latched, no button held.
    pub fn new() -> (r: Controller)
        ensures
            r == (Controller { strobe: false, shifter: 0, state: 0 }),
    {
        Controller { strobe: false, shifter: 0, state: 0 }
    }

    /// A write to the strobe register. A falling edge (strobe high, new low
    /// bit 0) latches the live buttons into the shift register.
    pub fn write_reg(&mut self, val: u8)
        ensures
            *final(self) == strobe_written(*old(self), val),
    {
        if self.strobe && (val & 1) == 0 {
            self.shifter = self.state;
        }
        self.strobe = (val & 1) != 0;
    }

    /// A read of the pad's serial line. With strobe high it reports button A
    /// live; otherwise it returns the low bit of the shift register, then
    /// shifts right, filling the top bit with 1.
    pub fn read_reg(&mut self) -> (r: u8)
        ensures
            r == read_bit(*old(self)),
            *final(self) == after_read(*old(self)),
    {
        if self.strobe {
            return self.state & 1;
        }
        let key = self.shifter & 1;
        self.shifter = 0x80 | (self.shifter >> 1);
        key
    }

    /// Sets or clears one button's bit of the live state, leaving the others.
    pub fn set_button(&mut self, keycode: Button, state: bool)
        ensures
            final(self).strobe == old(self).strobe,
            final(self).shifter == old(self).shifter,
            bit_of(final(self).state, button_bit(keycode)) == state,
            forall|i: u8|
                i < 8 && i != button_bit(keycode) ==> bit_of(final(self).state, i) == bit_of(
                    old(self).state,
                    i,
                ),
    {
        let b = keycode.bit();
        let v: u8 = if state { 1 } else { 0 };
        let old_state = self.state;
        let new_state = (old_state & !(1u8 << b)) | (v << b);
        proof {
            assert(((new_state >> b) & 1 == 1) == state) by (bit_vector)
                requires
                    b < 8,
                    v == if state { 1u8 } else { 0u8 },
                    new_state == (old_state & !(1u8 << b)) | (v << b),
            ;
            assert forall|i: u8| i < 8 && i != b implies bit_of(new_state, i) == bit_of(old_state, i) by {
                assert(((new_state >> i) & 1 == 1) == ((old_state >> i) & 1 == 1)) by (bit_vector)
                    requires
                        b < 8,
                        i < 8,
                        i != b,
                        v <= 1,
                        new_state == (old_state & !(1u8 << b)) | (v << b),
                ;
            }
        }
        self.state = new_state;
    }
}

} // verus!
