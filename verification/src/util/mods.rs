use vstd::prelude::*;

verus! {

/// The bits of the double `1.0`.
pub const RATE_NORMAL: u64 = 0x3FF0_0000_0000_0000;

/// The bits of the double `1.5`.
pub const RATE_DOUBLE_TIME: u64 = 0x3FF8_0000_0000_0000;

/// The bits of the double `0.75`.
pub const RATE_HALF_TIME: u64 = 0x3FE8_0000_0000_0000;

/// The bits of the single-precision float `1.0`.
pub const RATE_NORMAL_SINGLE: u32 = 0x3F80_0000;

/// The bits of the single-precision float `1.5`.
pub const RATE_DOUBLE_TIME_SINGLE: u32 = 0x3FC0_0000;

/// The bits of the single-precision float `0.75`.
pub const RATE_HALF_TIME_SINGLE: u32 = 0x3F40_0000;

/// Along which axes the playfield is mirrored.
#[derive(Copy, Clone, Debug, PartialEq, Eq, Structural)]
pub enum Reflection {
    Unmirrored,
    Vertical,
    Horizontal,
    Both,
}

/// The questions that a calculation asks of a set of modifiers.
pub trait Mods {
    spec fn spec_nf(&self) -> bool;

    spec fn spec_ez(&self) -> bool;

    spec fn spec_td(&self) -> bool;

    spec fn spec_hd(&self) -> bool;

    spec fn spec_hr(&self) -> bool;

    spec fn spec_dt(&self) -> bool;

    spec fn spec_rx(&self) -> bool;

    spec fn spec_ht(&self) -> bool;

    spec fn spec_fl(&self) -> bool;

    spec fn spec_so(&self) -> bool;

    spec fn spec_bl(&self) -> bool;

    spec fn spec_tc(&self) -> bool;

    spec fn spec_no_slider_head_acc(&self, lazer: bool) -> bool;

    spec fn spec_reflection(&self) -> Reflection;

    fn nf(&self) -> (on: bool)
        ensures
            on == self.spec_nf(),
    ;

    fn ez(&self) -> (on: bool)
        ensures
            on == self.spec_ez(),
    ;

    fn td(&self) -> (on: bool)
        ensures
            on == self.spec_td(),
    ;

    fn hd(&self) -> (on: bool)
        ensures
            on == self.spec_hd(),
    ;

    fn hr(&self) -> (on: bool)
        ensures
            on == self.spec_hr(),
    ;

    fn dt(&self) -> (on: bool)
        ensures
            on == self.spec_dt(),
    ;

    fn rx(&self) -> (on: bool)
        ensures
            on == self.spec_rx(),
    ;

    fn ht(&self) -> (on: bool)
        ensures
            on == self.spec_ht(),
    ;

    fn fl(&self) -> (on: bool)
        ensures
            on == self.spec_fl(),
    ;

    fn so(&self) -> (on: bool)
        ensures
            on == self.spec_so(),
    ;

    fn bl(&self) -> (on: bool)
        ensures
            on == self.spec_bl(),
    ;

    fn tc(&self) -> (on: bool)
        ensures
            on == self.spec_tc(),
    ;

    /// The clock rate that the modifiers ask for, as the bits of a double:
    /// `1.5` with double time, else `0.75` with half time, else `1.0`.
    fn clock_rate(&self) -> (rate: u64)
        ensures
            rate == spec_clock_rate(self.spec_dt(), self.spec_ht()),
    {
        if self.dt() {
            RATE_DOUBLE_TIME
        } else if self.ht() {
            RATE_HALF_TIME
        } else {
            RATE_NORMAL
        }
    }

    fn no_slider_head_acc(&self, lazer: bool) -> (classic: bool)
        ensures
            classic == self.spec_no_slider_head_acc(lazer),
    ;

    fn reflection(&self) -> (reflection: Reflection)
        ensures
            reflection == self.spec_reflection(),
    ;
}

/// The clock rate for a pair of speed modifiers, as the bits of a double.
pub open spec fn spec_clock_rate(dt: bool, ht: bool) -> u64 {
    if dt {
        RATE_DOUBLE_TIME
    } else if ht {
        RATE_HALF_TIME
    } else {
        RATE_NORMAL
    }
}

/// One of the three clock rates of [`Mods::clock_rate`] in single
/// precision, which holds each of them exactly.
pub open spec fn spec_rate_as_single(rate: u64) -> u32 {
    if rate == RATE_DOUBLE_TIME {
        RATE_DOUBLE_TIME_SINGLE
    } else if rate == RATE_HALF_TIME {
        RATE_HALF_TIME_SINGLE
    } else {
        RATE_NORMAL_SINGLE
    }
}

/// Narrows one of the three clock rates of [`Mods::clock_rate`] from the bits
/// of a double to the bits of a single-precision float.
pub fn rate_as_single(rate: u64) -> (single: u32)
    requires
        rate == RATE_NORMAL || rate == RATE_DOUBLE_TIME || rate == RATE_HALF_TIME,
    ensures
        single == spec_rate_as_single(rate),
{
    if rate == RATE_DOUBLE_TIME {
        RATE_DOUBLE_TIME_SINGLE
    } else if rate == RATE_HALF_TIME {
        RATE_HALF_TIME_SINGLE
    } else {
        RATE_NORMAL_SINGLE
    }
}

/// Whether any of the given bits is set.
pub open spec fn has_bits(mods: u32, bits: u32) -> bool {
    mods & bits != 0
}

pub const NO_FAIL: u32 = 1;

pub const EASY: u32 = 2;

pub const TOUCH_DEVICE: u32 = 4;

pub const HIDDEN: u32 = 8;

pub const HARD_ROCK: u32 = 16;

pub const DOUBLE_TIME: u32 = 64;

pub const RELAX: u32 = 128;

pub const HALF_TIME: u32 = 256;

pub const FLASHLIGHT: u32 = 1024;

pub const SPUN_OUT: u32 = 4096;

impl Mods for u32 {
    open spec fn spec_nf(&self) -> bool {
        has_bits(*self, NO_FAIL)
    }

    open spec fn spec_ez(&self) -> bool {
        has_bits(*self, EASY)
    }

    open spec fn spec_td(&self) -> bool {
        has_bits(*self, TOUCH_DEVICE)
    }

    open spec fn spec_hd(&self) -> bool {
        has_bits(*self, HIDDEN)
    }

    open spec fn spec_hr(&self) -> bool {
        has_bits(*self, HARD_ROCK)
    }

    open spec fn spec_dt(&self) -> bool {
        has_bits(*self, DOUBLE_TIME)
    }

    open spec fn spec_rx(&self) -> bool {
        has_bits(*self, RELAX)
    }

    open spec fn spec_ht(&self) -> bool {
        has_bits(*self, HALF_TIME)
    }

    open spec fn spec_fl(&self) -> bool {
        has_bits(*self, FLASHLIGHT)
    }

    open spec fn spec_so(&self) -> bool {
        has_bits(*self, SPUN_OUT)
    }

    open spec fn spec_bl(&self) -> bool {
        false
    }

    open spec fn spec_tc(&self) -> bool {
        false
    }

    open spec fn spec_no_slider_head_acc(&self, lazer: bool) -> bool {
        !lazer
    }

    open spec fn spec_reflection(&self) -> Reflection {
        if self.spec_hr() {
            Reflection::Vertical
        } else {
            Reflection::Unmirrored
        }
    }

    fn nf(&self) -> (on: bool) {
        *self & NO_FAIL != 0
    }

    fn ez(&self) -> (on: bool) {
        *self & EASY != 0
    }

    fn td(&self) -> (on: bool) {
        *self & TOUCH_DEVICE != 0
    }

    fn hd(&self) -> (on: bool) {
        *self & HIDDEN != 0
    }

    fn hr(&self) -> (on: bool) {
        *self & HARD_ROCK != 0
    }

    fn dt(&self) -> (on: bool) {
        *self & DOUBLE_TIME != 0
    }

    fn rx(&self) -> (on: bool) {
        *self & RELAX != 0
    }

    fn ht(&self) -> (on: bool) {
        *self & HALF_TIME != 0
    }

    fn fl(&self) -> (on: bool) {
        *self & FLASHLIGHT != 0
    }

    fn so(&self) -> (on: bool) {
        *self & SPUN_OUT != 0
    }

    fn bl(&self) -> (on: bool) {
        false
    }

    fn tc(&self) -> (on: bool) {
        false
    }

    fn no_slider_head_acc(&self, lazer: bool) -> (classic: bool) {
        !lazer
    }

    fn reflection(&self) -> (reflection: Reflection) {
        if self.hr() {
            Reflection::Vertical
        } else {
            Reflection::Unmirrored
        }
    }
}

/// A mirror modifier as a score carries it.
#[derive(Clone, Debug, PartialEq, Eq)]
pub enum Mirror {
    /// The mirror of the standard mode, with its axis setting if one is set.
    Osu(Option<String>),
    /// The mirror of the catch mode.
    Catch,
}

/// What a calculation reads of a collection of game modifiers, by the form
/// in which the collection came.
#[derive(Clone, Debug, PartialEq, Eq)]
pub enum GameMods {
    /// Modifiers with their settings.
    Lazer {
        /// The modifiers that have a bit of their own, as those bits.
        bits: u32,
        /// Whether the blinds modifier is among them.
        blinds: bool,
        /// Whether the traceable modifier is among them.
        traceable: bool,
        /// The setting of the first classic modifier, if there is one: whether
        /// slider heads are left out of the accuracy.
        classic: Option<Option<bool>>,
        /// The first mirror modifier, if there is one.
        mirror: Option<Mirror>,
    },
    /// Modifiers by kind, without settings.
    Intermode {
        /// The modifiers that have a bit of their own, as those bits.
        bits: u32,
        /// Whether the blinds modifier is among them.
        blinds: bool,
        /// Whether the traceable modifier is among them.
        traceable: bool,
        /// Whether the classic modifier is among them.
        classic: bool,
    },
    /// Modifiers as bits.
    Legacy(u32),
}

impl GameMods {
    /// The modifiers that have a bit of their own, as those bits.
    pub open spec fn spec_bits(&self) -> u32 {
        match self {
            GameMods::Lazer { bits, .. } => *bits,
            GameMods::Intermode { bits, .. } => *bits,
            GameMods::Legacy(bits) => *bits,
        }
    }

    /// The modifiers that have a bit of their own, as those bits.
    pub fn bits(&self) -> (bits: u32)
        ensures
            bits == self.spec_bits(),
    {
        match self {
            GameMods::Lazer { bits, .. } => *bits,
            GameMods::Intermode { bits, .. } => *bits,
            GameMods::Legacy(bits) => *bits,
        }
    }

    /// No modifier at all.
    pub fn no_mod() -> (mods: Self)
        ensures
            mods == GameMods::Legacy(0),
    {
        GameMods::Legacy(0)
    }
}

/// The reflection that a mirror modifier asks for: the horizontal one unless
/// the standard mode's axis setting says otherwise (`"1"` for the vertical
/// axis, `"2"` for both, anything else for none).
pub open spec fn spec_mirror_reflection(mirror: Mirror) -> Reflection {
    match mirror {
        Mirror::Osu(None) => Reflection::Horizontal,
        Mirror::Osu(Some(axis)) => if axis@ == "1"@ {
            Reflection::Vertical
        } else if axis@ == "2"@ {
            Reflection::Both
        } else {
            Reflection::Unmirrored
        },
        Mirror::Catch => Reflection::Horizontal,
    }
}

/// The reflection that a mirror modifier asks for.
pub fn mirror_reflection(mirror: &Mirror) -> (reflection: Reflection)
    ensures
        reflection == spec_mirror_reflection(*mirror),
{
    match mirror {
        Mirror::Osu(None) => Reflection::Horizontal,
        Mirror::Osu(Some(axis)) => {
            let vertical = "1".to_owned();
            let both = "2".to_owned();
            if *axis == vertical {
                Reflection::Vertical
            } else if *axis == both {
                Reflection::Both
            } else {
                Reflection::Unmirrored
            }
        },
        Mirror::Catch => Reflection::Horizontal,
    }
}

impl Mods for GameMods {
    open spec fn spec_nf(&self) -> bool {
        has_bits(self.spec_bits(), NO_FAIL)
    }

    open spec fn spec_ez(&self) -> bool {
        has_bits(self.spec_bits(), EASY)
    }

    open spec fn spec_td(&self) -> bool {
        has_bits(self.spec_bits(), TOUCH_DEVICE)
    }

    open spec fn spec_hd(&self) -> bool {
        has_bits(self.spec_bits(), HIDDEN)
    }

    open spec fn spec_hr(&self) -> bool {
        has_bits(self.spec_bits(), HARD_ROCK)
    }

    open spec fn spec_dt(&self) -> bool {
        has_bits(self.spec_bits(), DOUBLE_TIME)
    }

    open spec fn spec_rx(&self) -> bool {
        has_bits(self.spec_bits(), RELAX)
    }

    open spec fn spec_ht(&self) -> bool {
        has_bits(self.spec_bits(), HALF_TIME)
    }

    open spec fn spec_fl(&self) -> bool {
        has_bits(self.spec_bits(), FLASHLIGHT)
    }

    open spec fn spec_so(&self) -> bool {
        has_bits(self.spec_bits(), SPUN_OUT)
    }

    open spec fn spec_bl(&self) -> bool {
        match self {
            GameMods::Lazer { blinds, .. } => *blinds,
            GameMods::Intermode { blinds, .. } => *blinds,
            GameMods::Legacy(_) => false,
        }
    }

    open spec fn spec_tc(&self) -> bool {
        match self {
            GameMods::Lazer { traceable, .. } => *traceable,
            GameMods::Intermode { traceable, .. } => *traceable,
            GameMods::Legacy(_) => false,
        }
    }

    open spec fn spec_no_slider_head_acc(&self, lazer: bool) -> bool {
        match self {
            GameMods::Lazer { classic: Some(Some(setting)), .. } => *setting,
            GameMods::Lazer { classic: Some(None), .. } => true,
            GameMods::Lazer { classic: None, .. } => !lazer,
            GameMods::Intermode { classic, .. } => *classic || !lazer,
            GameMods::Legacy(_) => !lazer,
        }
    }

    open spec fn spec_reflection(&self) -> Reflection {
        match self {
            GameMods::Lazer { bits, mirror, .. } => if has_bits(*bits, HARD_ROCK) {
                Reflection::Vertical
            } else {
                match mirror {
                    Some(mirror) => spec_mirror_reflection(*mirror),
                    None => Reflection::Unmirrored,
                }
            },
            GameMods::Intermode { bits, .. } => if has_bits(*bits, HARD_ROCK) {
                Reflection::Vertical
            } else {
                Reflection::Unmirrored
            },
            GameMods::Legacy(bits) => if has_bits(*bits, HARD_ROCK) {
                Reflection::Vertical
            } else {
                Reflection::Unmirrored
            },
        }
    }

    fn nf(&self) -> (on: bool) {
        self.bits() & NO_FAIL != 0
    }

    fn ez(&self) -> (on: bool) {
        self.bits() & EASY != 0
    }

    fn td(&self) -> (on: bool) {
        self.bits() & TOUCH_DEVICE != 0
    }

    fn hd(&self) -> (on: bool) {
        self.bits() & HIDDEN != 0
    }

    fn hr(&self) -> (on: bool) {
        self.bits() & HARD_ROCK != 0
    }

    fn dt(&self) -> (on: bool) {
        self.bits() & DOUBLE_TIME != 0
    }

    fn rx(&self) -> (on: bool) {
        self.bits() & RELAX != 0
    }

    fn ht(&self) -> (on: bool) {
        self.bits() & HALF_TIME != 0
    }

    fn fl(&self) -> (on: bool) {
        self.bits() & FLASHLIGHT != 0
    }

    fn so(&self) -> (on: bool) {
        self.bits() & SPUN_OUT != 0
    }

    fn bl(&self) -> (on: bool) {
        match self {
            GameMods::Lazer { blinds, .. } => *blinds,
            GameMods::Intermode { blinds, .. } => *blinds,
            GameMods::Legacy(_) => false,
        }
    }

    fn tc(&self) -> (on: bool) {
        match self {
            GameMods::Lazer { traceable, .. } => *traceable,
            GameMods::Intermode { traceable, .. } => *traceable,
            GameMods::Legacy(_) => false,
        }
    }

    fn no_slider_head_acc(&self, lazer: bool) -> (classic: bool) {
        match self {
            GameMods::Lazer { classic, .. } => match classic {
                Some(Some(setting)) => *setting,
                Some(None) => true,
                None => !lazer,
            },
            GameMods::Intermode { classic, .. } => *classic || !lazer,
            GameMods::Legacy(_) => !lazer,
        }
    }

    fn reflection(&self) -> (reflection: Reflection) {
        match self {
            GameMods::Lazer { bits, mirror, .. } => {
                if *bits & HARD_ROCK != 0 {
                    Reflection::Vertical
                } else {
                    match mirror {
                        Some(mirror) => mirror_reflection(mirror),
                        None => Reflection::Unmirrored,
                    }
                }
            },
            GameMods::Intermode { bits, .. } => {
                if *bits & HARD_ROCK != 0 {
                    Reflection::Vertical
                } else {
                    Reflection::Unmirrored
                }
            },
            GameMods::Legacy(bits) => {
                if *bits & HARD_ROCK != 0 {
                    Reflection::Vertical
                } else {
                    Reflection::Unmirrored
                }
            },
        }
    }
}

} // verus!
