use vstd::prelude::*;

verus! {

/// A selector value of `SELECTOR_FULL` is the whole hue circle; one unit
/// of selector is one millidegree of hue.
pub const SELECTOR_FULL: u32 = 360_000;

/// Number of colour buckets the game plays with.
pub const COLOR_STEPS: u32 = 7;

/// The game's hue offset: twenty degrees, in millidegrees.
pub const HUE_OFFSET: u32 = 20_000;

/// One of `steps` equal buckets of the hue circle. Its representative hue
/// is the bucket's lower edge, `index * 360 / steps` degrees.
#[derive(Clone, Copy, Debug, PartialEq, Eq, Structural)]
pub struct HueStep {
    pub index: u32,
    pub steps: u32,
}

/// Bucket counts admitted by `quantize`.
pub open spec fn valid_steps(steps: int) -> bool {
    1 <= steps <= 360
}

/// Hue angle of `t` less `offset`, taken modulo the full circle.
pub open spec fn hue_angle(t: int, offset: int) -> int {
    (t + SELECTOR_FULL - offset % (SELECTOR_FULL as int)) % (SELECTOR_FULL as int)
}

/// The bucket of `steps` equal buckets that holds hue angle `t - offset`.
pub open spec fn quantize_spec(t: int, steps: int, offset: int) -> HueStep {
    HueStep {
        index: (hue_angle(t, offset) * steps / (SELECTOR_FULL as int)) as u32,
        steps: steps as u32,
    }
}

/// The smallest selector value whose bucket (with no offset) is `index` of `steps`.
pub open spec fn lower_edge_spec(index: int, steps: int) -> int {
    (index * SELECTOR_FULL + steps - 1) / steps
}

impl HueStep {
    pub open spec fn wf(self) -> bool {
        valid_steps(self.steps as int) && self.index < self.steps
    }

    /// The selector value at this bucket's lower edge, rounded up: the
    /// representative hue in millidegrees.
    pub fn lower_edge(&self) -> (r: u32)
        requires
            self.wf(),
        ensures
            r == lower_edge_spec(self.index as int, self.steps as int),
            r < SELECTOR_FULL,
            quantize_spec(r as int, self.steps as int, 0) == *self,
    {
        proof {
            lemma_lower_edge(self.index as int, self.steps as int);
        }
        let n: u64 = self.index as u64 * SELECTOR_FULL as u64 + self.steps as u64 - 1;
        (n / self.steps as u64) as u32
    }

    /// Whether two colours match: the same bucket of the same division.
    pub fn matches(&self, other: &HueStep) -> (r: bool)
        ensures
            r == (*self == *other),
    {
        self.index == other.index && self.steps == other.steps
    }
}

proof fn lemma_lower_edge(i: int, s: int)
    requires
        valid_steps(s),
        0 <= i < s,
    ensures
        0 <= lower_edge_spec(i, s) < SELECTOR_FULL,
        quantize_spec(lower_edge_spec(i, s), s, 0) == (HueStep { index: i as u32, steps: s as u32 }),
{
    let f = SELECTOR_FULL as int;
    let t = lower_edge_spec(i, s);
    assert(t * s <= i * f + s - 1 && i * f + s - 1 < t * s + s) by (nonlinear_arith)
        requires t == (i * f + s - 1) / s, s > 0, i >= 0;
    assert(0 <= t) by (nonlinear_arith)
        requires t == (i * f + s - 1) / s, s > 0, i >= 0, f > 0;
    assert(t < f) by (nonlinear_arith)
        requires t * s <= i * f + s - 1, i <= s - 1, f == 360_000, 1 <= s <= 360;
    assert(hue_angle(t, 0) == t);
    assert(i * f <= t * s && t * s < (i + 1) * f) by (nonlinear_arith)
        requires t * s <= i * f + s - 1, i * f + s - 1 < t * s + s, f == 360_000, s <= 360;
    assert((t * s) / f == i) by (nonlinear_arith)
        requires i * f <= t * s, t * s < (i + 1) * f, f > 0;
}

/// The bucket of `steps` equal buckets that holds the hue angle
/// `t - offset`, where `t` and `offset` are in millidegrees. A negative
/// angle wraps round the circle: it is taken modulo 360 degrees.
pub fn quantize(t: u32, steps: u32, offset: u32) -> (r: HueStep)
    requires
        t <= SELECTOR_FULL,
        valid_steps(steps as int),
    ensures
        r == quantize_spec(t as int, steps as int, offset as int),
        r.wf(),
{
    let off: u64 = (offset % SELECTOR_FULL) as u64;
    let h: u64 = (t as u64 + SELECTOR_FULL as u64 - off) % SELECTOR_FULL as u64;
    proof {
        let f = SELECTOR_FULL as int;
        assert(h * steps < steps * f) by (nonlinear_arith)
            requires h < f, 1 <= steps;
        assert(h * steps / f < steps) by (nonlinear_arith)
            requires h * steps < steps * f, f > 0, h >= 0;
    }
    let index: u64 = h * steps as u64 / SELECTOR_FULL as u64;
    HueStep { index: index as u32, steps }
}

/// The game's colour of selector value `t`: one of `COLOR_STEPS` buckets,
/// offset by `HUE_OFFSET`.
pub fn stepped_hue(t: u32) -> (r: HueStep)
    requires
        t <= SELECTOR_FULL,
    ensures
        r == quantize_spec(t as int, COLOR_STEPS as int, HUE_OFFSET as int),
        r.wf(),
{
    quantize(t, COLOR_STEPS, HUE_OFFSET)
}

/// Quantizing takes exactly `steps` values, bucket `i` standing for the
/// hue `i * 360 / steps`; and quantizing a bucket's own representative
/// hue gives the bucket back.
pub proof fn lemma_quantize_buckets(t: int, steps: int)
    requires
        0 <= t <= SELECTOR_FULL,
        valid_steps(steps),
    ensures
        quantize_spec(t, steps, 0).wf(),
        quantize_spec(t, steps, 0).steps == steps,
        quantize_spec(lower_edge_spec(quantize_spec(t, steps, 0).index as int, steps), steps, 0)
            == quantize_spec(t, steps, 0),
        forall|i: int|
            0 <= i < steps ==> {
                let e = #[trigger] lower_edge_spec(i, steps);
                &&& 0 <= e <= SELECTOR_FULL
                &&& quantize_spec(e, steps, 0).index == i
            },
{
    let f = SELECTOR_FULL as int;
    let h = hue_angle(t, 0);
    assert(0 <= h < f);
    assert(h * steps < steps * f) by (nonlinear_arith)
        requires h < f, 1 <= steps, 0 <= h;
    assert(0 <= h * steps / f < steps) by (nonlinear_arith)
        requires h * steps < steps * f, f > 0, h >= 0, steps >= 1;
    lemma_lower_edge(h * steps / f, steps);
    assert forall|i: int| 0 <= i < steps implies {
        let e = #[trigger] lower_edge_spec(i, steps);
        &&& 0 <= e <= SELECTOR_FULL
        &&& quantize_spec(e, steps, 0).index == i
    } by {
        lemma_lower_edge(i, steps);
    }
}

/// An opaque colour, eight bits a channel, alpha last.
#[derive(Clone, Copy, Debug, PartialEq, Eq, Structural)]
pub struct Color {
    pub r: u8,
    pub g: u8,
    pub b: u8,
    pub a: u8,
}

/// The fully opaque colour with the given red, green and blue channels.
pub fn color_convert(int_color: (u8, u8, u8)) -> (r: Color)
    ensures
        r == (Color { r: int_color.0, g: int_color.1, b: int_color.2, a: 255 }),
{
    Color { r: int_color.0, g: int_color.1, b: int_color.2, a: 255 }
}

} // verus!
