use vstd::prelude::*;

verus! {

/// Number of keys on the keypad.
pub const NUM_KEYS: usize = 16;

/// One key of the sixteen-key hexadecimal keypad.
#[derive(Clone, Copy, Debug, PartialEq, Eq, Structural)]
pub enum Key {
    Num0,
    Num1,
    Num2,
    Num3,
    Num4,
    Num5,
    Num6,
    Num7,
    Num8,
    Num9,
    A,
    B,
    C,
    D,
    E,
    F,
}

impl Key {
    /// The hexadecimal digit printed on the key.
    pub open spec fn spec_idx(&self) -> usize {
        match self {
            Key::Num0 => 0x0,
            Key::Num1 => 0x1,
            Key::Num2 => 0x2,
            Key::Num3 => 0x3,
            Key::Num4 => 0x4,
            Key::Num5 => 0x5,
            Key::Num6 => 0x6,
            Key::Num7 => 0x7,
            Key::Num8 => 0x8,
            Key::Num9 => 0x9,
            Key::A => 0xA,
            Key::B => 0xB,
            Key::C => 0xC,
            Key::D => 0xD,
            Key::E => 0xE,
            Key::F => 0xF,
        }
    }

    /// The key that carries the hexadecimal digit `idx`.
    pub open spec fn spec_from_idx(idx: usize) -> Key
        recommends
            idx < NUM_KEYS,
    {
        if idx == 0x0 {
            Key::Num0
        } else if idx == 0x1 {
            Key::Num1
        } else if idx == 0x2 {
            Key::Num2
        } else if idx == 0x3 {
            Key::Num3
        } else if idx == 0x4 {
            Key::Num4
        } else if idx == 0x5 {
            Key::Num5
        } else if idx == 0x6 {
            Key::Num6
        } else if idx == 0x7 {
            Key::Num7
        } else if idx == 0x8 {
            Key::Num8
        } else if idx == 0x9 {
            Key::Num9
        } else if idx == 0xA {
            Key::A
        } else if idx == 0xB {
            Key::B
        } else if idx == 0xC {
            Key::C
        } else if idx == 0xD {
            Key::D
        } else if idx == 0xE {
            Key::E
        } else {
            Key::F
        }
    }

    #[verifier::when_used_as_spec(spec_idx)]
    pub fn idx(&self) -> (idx: usize)
        ensures
            idx == self.spec_idx(),
            idx < NUM_KEYS,
    {
        match self {
            Key::Num0 => 0x0,
            Key::Num1 => 0x1,
            Key::Num2 => 0x2,
            Key::Num3 => 0x3,
            Key::Num4 => 0x4,
            Key::Num5 => 0x5,
            Key::Num6 => 0x6,
            Key::Num7 => 0x7,
            Key::Num8 => 0x8,
            Key::Num9 => 0x9,
            Key::A => 0xA,
            Key::B => 0xB,
            Key::C => 0xC,
            Key::D => 0xD,
            Key::E => 0xE,
            Key::F => 0xF,
        }
    }

    #[verifier::when_used_as_spec(spec_from_idx)]
    pub fn from_idx(idx: usize) -> (key: Self)
        requires
            idx < NUM_KEYS,
        ensures
            key == Key::spec_from_idx(idx),
            key.spec_idx() == idx,
    {
        match idx {
            0x0 => Key::Num0,
            0x1 => Key::Num1,
            0x2 => Key::Num2,
            0x3 => Key::Num3,
            0x4 => Key::Num4,
            0x5 => Key::Num5,
            0x6 => Key::Num6,
            0x7 => Key::Num7,
            0x8 => Key::Num8,
            0x9 => Key::Num9,
            0xA => Key::A,
            0xB => Key::B,
            0xC => Key::C,
            0xD => Key::D,
            0xE => Key::E,
            _ => Key::F,
        }
    }

    /// Every key is found again from its digit, and every digit from its key.
    pub proof fn lemma_idx_round_trip(key: Key, idx: usize)
        ensures
            key.spec_idx() < NUM_KEYS,
            Key::spec_from_idx(key.spec_idx()) == key,
            idx < NUM_KEYS ==> Key::spec_from_idx(idx).spec_idx() == idx,
    {
    }
}

impl From<Key> for usize {
    fn from(value: Key) -> (idx: usize) {
        value.idx()
    }
}

impl vstd::std_specs::convert::FromSpecImpl<Key> for usize {
    open spec fn obeys_from_spec() -> bool {
        true
    }

    open spec fn from_spec(value: Key) -> usize {
        value.spec_idx()
    }
}

/// Which keys are currently marked pressed.
#[derive(Clone, Debug)]
pub struct KeyState {
    keys: [bool; 16],
}

impl View for KeyState {
    type V = Seq<bool>;

    /// One flag per key, indexed by the key's digit; always `NUM_KEYS` long.
    closed spec fn view(&self) -> Seq<bool> {
        self.keys@
    }
}

/// `k` is the lowest digit whose key is marked pressed in `keys`.
pub open spec fn is_lowest_pressed(keys: Seq<bool>, k: int) -> bool {
    &&& 0 <= k < keys.len()
    &&& keys[k]
    &&& forall|j: int| 0 <= j < k ==> !keys[j]
}

/// The lowest digit whose key is marked pressed, if any key is.
pub open spec fn lowest_pressed(keys: Seq<bool>) -> Option<u8> {
    if exists|k: int| is_lowest_pressed(keys, k) {
        Some((choose|k: int| is_lowest_pressed(keys, k)) as u8)
    } else {
        None
    }
}

/// If `k` is the lowest pressed digit then `lowest_pressed` names it.
pub proof fn lemma_lowest_pressed_is(keys: Seq<bool>, k: int)
    requires
        is_lowest_pressed(keys, k),
    ensures
        lowest_pressed(keys) == Some(k as u8),
{
}

/// With no key pressed `lowest_pressed` names none.
pub proof fn lemma_lowest_pressed_none(keys: Seq<bool>)
    requires
        forall|j: int| 0 <= j < keys.len() ==> !keys[j],
    ensures
        lowest_pressed(keys) is None,
{
}

impl KeyState {
    /// Every `KeyState` holds exactly `NUM_KEYS` flags.
    pub proof fn lemma_len(&self)
        ensures
            self@.len() == NUM_KEYS,
    {
    }

    pub fn new() -> (state: Self)
        ensures
            state@ == Seq::new(NUM_KEYS as nat, |k: int| false),
    {
        Self::default()
    }

    pub fn reset(&mut self)
        ensures
            final(self)@ == Seq::new(NUM_KEYS as nat, |k: int| false),
    {
        self.keys = [false;16];
    }

    pub fn mark_key_pressed(&mut self, key: Key)
        ensures
            final(self)@ == old(self)@.update(key.spec_idx() as int, true),
    {
        let idx: usize = key.idx();
        self.keys[idx] = true;
    }

    pub fn is_key_pressed(&self, key: Key) -> (pressed: bool)
        ensures
            pressed == self@[key.spec_idx() as int],
    {
        let idx: usize = key.into();
        self.keys[idx]
    }

    pub fn get_pressed_key(&self) -> (key: Option<u8>)
        ensures
            key == lowest_pressed(self@),
            match key {
                Some(k) => is_lowest_pressed(self@, k as int),
                None => forall|j: int| 0 <= j < NUM_KEYS ==> !self@[j],
            },
    {
        let mut idx: usize = 0;
        while idx < 16
            invariant
                idx <= 16,
                forall|j: int| 0 <= j < idx ==> !self@[j],
            decreases 16 - idx,
        {
            if self.keys[idx] {
                proof {
                    lemma_lowest_pressed_is(self@, idx as int);
                }
                return Some(idx as u8);
            }
            idx += 1;
        }
        proof {
            lemma_lowest_pressed_none(self@);
        }
        None
    }
}

impl Default for KeyState {
    fn default() -> (state: Self)
        ensures
            state@ == Seq::new(NUM_KEYS as nat, |k: int| false),
    {
        Self { keys: [false;16] }
    }
}

} // verus!
