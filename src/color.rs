//! Hue arithmetic and alliance classification.
//!
//! Hues are integers in hundredths of a degree, so a full turn is 36000.
use vstd::arithmetic::div_mod::{lemma_fundamental_div_mod, lemma_mod_multiples_vanish};
use vstd::prelude::*;

verus! {

/// Half a turn of hue, in hundredths of a degree.
pub const HUE_HALF_TURN: i64 = 18000;

/// A full turn of hue, in hundredths of a degree.
pub const HUE_FULL_TURN: i64 = 36000;

/// Reference hue of a red piece.
pub const RED_HUE: i64 = 0;

/// Reference hue of a blue piece.
pub const BLUE_HUE: i64 = -12000;

/// Default match tolerance: 30 degrees.
pub const HUE_TOLERANCE: i64 = 3000;

/// One of the two teams of a match.
#[derive(Clone, Copy, Debug, PartialEq, Eq, Structural)]
pub enum Alliance {
    Red,
    Blue,
}

pub open spec fn opponent_of(a: Alliance) -> Alliance {
    match a {
        Alliance::Red => Alliance::Blue,
        Alliance::Blue => Alliance::Red,
    }
}

impl Alliance {
    /// The other team.
    pub fn opponent(self) -> (r: Alliance)
        ensures
            r == opponent_of(self),
    {
        match self {
            Alliance::Red => Alliance::Blue,
            Alliance::Blue => Alliance::Red,
        }
    }
}

/// The reference hues of both alliances and how close a reading must come
/// to one of them to count as a match.
#[derive(Clone, Copy, Debug, PartialEq, Eq, Structural)]
pub struct HueConfig {
    pub red_hue: i64,
    pub blue_hue: i64,
    pub tolerance: i64,
}

impl HueConfig {
    pub open spec fn reference_of(self, a: Alliance) -> int {
        match a {
            Alliance::Red => self.red_hue as int,
            Alliance::Blue => self.blue_hue as int,
        }
    }

    pub open spec fn standard_spec() -> HueConfig {
        HueConfig { red_hue: RED_HUE, blue_hue: BLUE_HUE, tolerance: HUE_TOLERANCE }
    }

    /// Red at 0 degrees, blue at -120 degrees, 30 degrees of tolerance.
    pub fn standard() -> (r: HueConfig)
        ensures
            r == Self::standard_spec(),
    {
        HueConfig { red_hue: RED_HUE, blue_hue: BLUE_HUE, tolerance: HUE_TOLERANCE }
    }

    /// The reference hue configured for an alliance.
    pub fn reference(&self, a: Alliance) -> (r: i64)
        ensures
            r == self.reference_of(a),
    {
        match a {
            Alliance::Red => self.red_hue,
            Alliance::Blue => self.blue_hue,
        }
    }
}

/// The hue `h` brought into the canonical range (-180, 180] degrees.
pub open spec fn normalized_hue(h: int) -> int {
    HUE_HALF_TURN - (HUE_HALF_TURN - h) % (HUE_FULL_TURN as int)
}

/// Circular distance between two hues: how far apart they are around the
/// color wheel, never more than half a turn.
pub open spec fn hue_distance(a: int, b: int) -> int {
    let d = normalized_hue(a - b);
    if d < 0 {
        -d
    } else {
        d
    }
}

/// Whether the hue `h` lies strictly within the tolerance of alliance `a`'s
/// reference hue.
pub open spec fn hue_matches(h: int, a: Alliance, config: HueConfig) -> bool {
    hue_distance(h, config.reference_of(a)) < config.tolerance
}

/// Which alliance a hue reads as, red taking precedence; `None` for a hue
/// near neither reference.
pub open spec fn alliance_of_hue(h: int, config: HueConfig) -> Option<Alliance> {
    if hue_matches(h, Alliance::Red, config) {
        Some(Alliance::Red)
    } else if hue_matches(h, Alliance::Blue, config) {
        Some(Alliance::Blue)
    } else {
        None
    }
}

/// The opposing alliance when the hue matches its reference: such a piece is
/// foreign to a robot of alliance `own`. Anything else is not classified.
pub open spec fn classification(h: int, own: Alliance, config: HueConfig) -> Option<Alliance> {
    if hue_matches(h, opponent_of(own), config) {
        Some(opponent_of(own))
    } else {
        None
    }
}

/// Two hues a whole number of turns apart normalize to the same value.
pub proof fn lemma_normalized_hue_periodic(h: int, k: int)
    ensures
        normalized_hue(h + HUE_FULL_TURN * k) == normalized_hue(h),
{
    let m = HUE_FULL_TURN as int;
    lemma_mod_multiples_vanish(-k, HUE_HALF_TURN - h, m);
    assert(HUE_HALF_TURN - (h + HUE_FULL_TURN * k) == m * (-k) + (HUE_HALF_TURN - h));
}

/// A normalized hue differs from the raw one by a whole number of turns.
proof fn lemma_normalized_hue_shift(h: int) -> (k: int)
    ensures
        normalized_hue(h) == h + HUE_FULL_TURN * k,
{
    let m = HUE_FULL_TURN as int;
    let x = HUE_HALF_TURN - h;
    lemma_fundamental_div_mod(x, m);
    x / m
}

/// Normalizing both hues before taking a difference does not change its
/// normalized value.
proof fn lemma_normalized_difference(a: int, b: int)
    ensures
        normalized_hue(normalized_hue(a) - normalized_hue(b)) == normalized_hue(a - b),
{
    let ka = lemma_normalized_hue_shift(a);
    let kb = lemma_normalized_hue_shift(b);
    assert(normalized_hue(a) - normalized_hue(b) == (a - b) + HUE_FULL_TURN * (ka - kb))
        by (nonlinear_arith)
        requires
            normalized_hue(a) == a + HUE_FULL_TURN * ka,
            normalized_hue(b) == b + HUE_FULL_TURN * kb,
    ;
    lemma_normalized_hue_periodic(a - b, ka - kb);
}

/// A normalized hue lies in (-180, 180] degrees.
pub proof fn lemma_normalized_hue_range(h: int)
    ensures
        -HUE_HALF_TURN < normalized_hue(h) <= HUE_HALF_TURN,
{
}

/// Brings a raw hue into the canonical range (-180, 180] degrees.
pub fn normalize_hue(raw: i64) -> (r: i64)
    ensures
        r == normalized_hue(raw as int),
        -HUE_HALF_TURN < r <= HUE_HALF_TURN,
{
    let m = raw % HUE_FULL_TURN;
    let k: i64 = raw / HUE_FULL_TURN;
    proof {
        lemma_normalized_hue_periodic(m as int, k as int);
    }
    let x = HUE_HALF_TURN - m;
    let rem = x % HUE_FULL_TURN;
    let rem = if rem < 0 {
        rem + HUE_FULL_TURN
    } else {
        rem
    };
    HUE_HALF_TURN - rem
}

/// Circular distance between two hues.
pub fn circular_distance(a: i64, b: i64) -> (r: i64)
    ensures
        r == hue_distance(a as int, b as int),
        0 <= r <= HUE_HALF_TURN,
{
    let na = normalize_hue(a);
    let nb = normalize_hue(b);
    let d = normalize_hue(na - nb);
    proof {
        lemma_normalized_difference(a as int, b as int);
    }
    if d < 0 {
        -d
    } else {
        d
    }
}

/// Whether a hue matches alliance `a`'s reference within the tolerance.
pub fn matches_alliance(raw_hue: i64, a: Alliance, config: &HueConfig) -> (r: bool)
    ensures
        r == hue_matches(raw_hue as int, a, *config),
{
    circular_distance(raw_hue, config.reference(a)) < config.tolerance
}

/// Which alliance a hue reads as, red first; `None` when it is near neither.
pub fn hue_alliance(raw_hue: i64, config: &HueConfig) -> (r: Option<Alliance>)
    ensures
        r == alliance_of_hue(raw_hue as int, *config),
{
    if matches_alliance(raw_hue, Alliance::Red, config) {
        Some(Alliance::Red)
    } else if matches_alliance(raw_hue, Alliance::Blue, config) {
        Some(Alliance::Blue)
    } else {
        None
    }
}

/// Classifies a sensed hue for a robot of alliance `own`: the opposing
/// alliance when the hue matches its reference, else `None`. Pieces of the
/// robot's own color and ambiguous pieces are never classified.
pub fn classify(raw_hue: i64, own: Alliance, config: &HueConfig) -> (r: Option<Alliance>)
    ensures
        r == classification(raw_hue as int, own, *config),
{
    let foe = own.opponent();
    if matches_alliance(raw_hue, foe, config) {
        Some(foe)
    } else {
        None
    }
}

/// Hues a whole number of turns apart are classified alike.
pub proof fn lemma_classify_periodic(h: int, k: int, own: Alliance, config: HueConfig)
    ensures
        classification(h + HUE_FULL_TURN * k, own, config) == classification(h, own, config),
        alliance_of_hue(h + HUE_FULL_TURN * k, config) == alliance_of_hue(h, config),
{
    let h2 = h + HUE_FULL_TURN * k;
    let red = config.reference_of(Alliance::Red);
    let blue = config.reference_of(Alliance::Blue);
    assert(h2 - red == (h - red) + HUE_FULL_TURN * k);
    assert(h2 - blue == (h - blue) + HUE_FULL_TURN * k);
    lemma_normalized_hue_periodic(h - red, k);
    lemma_normalized_hue_periodic(h - blue, k);
}

/// A piece is never classified as belonging to the robot's own alliance.
pub proof fn lemma_classify_never_own(h: int, own: Alliance, config: HueConfig)
    ensures
        classification(h, own, config) != Some(own),
{
}

} // verus!
