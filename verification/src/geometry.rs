use vstd::prelude::*;

verus! {

/// Largest magnitude a resolved position (or pointer coordinate) may take.
pub const POS_LIMIT: i64 = 0x1_0000_0000_0000;

/// Largest size (width, height, gap, padding, ...) a layout value may take.
pub const SIZE_LIMIT: i64 = 0x100_0000;

/// A position value that layout arithmetic can combine without overflow.
pub open spec fn pos_ok(v: int) -> bool {
    -POS_LIMIT <= v <= POS_LIMIT
}

/// A size value that layout arithmetic can combine without overflow.
pub open spec fn size_ok(v: int) -> bool {
    0 <= v <= SIZE_LIMIT
}

/// Position addition saturated into the representable position range, so that
/// accumulating offsets over arbitrarily many entries can never overflow.
pub open spec fn spec_padd(a: int, b: int) -> int {
    if a + b > POS_LIMIT {
        POS_LIMIT as int
    } else if a + b < -POS_LIMIT {
        -POS_LIMIT as int
    } else {
        a + b
    }
}

/// Adds two position values, saturating into `[-POS_LIMIT, POS_LIMIT]`.
pub fn padd(a: i64, b: i64) -> (r: i64)
    requires
        pos_ok(a as int) || size_ok(a as int),
        pos_ok(b as int) || size_ok(b as int),
    ensures
        r as int == spec_padd(a as int, b as int),
        pos_ok(r as int),
{
    let s: i64 = a + b;
    if s > POS_LIMIT {
        POS_LIMIT
    } else if s < -POS_LIMIT {
        -POS_LIMIT
    } else {
        s
    }
}

/// An axis-aligned rectangle in device pixels.
#[derive(Clone, Copy, PartialEq, Eq, Structural, Debug)]
pub struct Rect {
    pub x: i64,
    pub y: i64,
    pub width: i64,
    pub height: i64,
}

impl Rect {
    /// Sizes are non-negative and every value is small enough for layout
    /// arithmetic; this is the well-formedness every laid-out rect keeps.
    pub open spec fn wf(self) -> bool {
        &&& pos_ok(self.x as int)
        &&& pos_ok(self.y as int)
        &&& size_ok(self.width as int)
        &&& size_ok(self.height as int)
    }

    /// Inclusive-exclusive membership on the half-open box.
    pub open spec fn spec_contains(self, px: int, py: int) -> bool {
        &&& self.x <= px < self.x + self.width
        &&& self.y <= py < self.y + self.height
    }

    /// Hit test: is the point inside the half-open box?
    pub fn contains(&self, px: i64, py: i64) -> (r: bool)
        ensures
            r == self.spec_contains(px as int, py as int),
    {
        px >= self.x && (px as i128) < self.x as i128 + self.width as i128 && py >= self.y
            && (py as i128) < self.y as i128 + self.height as i128
    }

    /// Floor division by two, matching the way centred placement halves a
    /// (possibly negative) leftover space.
    pub fn half_floor(v: i64) -> (r: i64)
        requires
            v > i64::MIN + 1,
        ensures
            r as int == (v as int) / 2,
    {
        if v >= 0 {
            v / 2
        } else {
            let q: i64 = (-v + 1) / 2;
            proof {
                vstd::arithmetic::div_mod::lemma_fundamental_div_mod((-v + 1) as int, 2);
                vstd::arithmetic::div_mod::lemma_mod_bound((-v + 1) as int, 2);
                vstd::arithmetic::div_mod::lemma_fundamental_div_mod_converse_mod(
                    v as int, 2, -q as int, (v as int) - 2 * (-q as int));
            }
            -q
        }
    }
}

/// Floor division (the mathematical quotient) for a possibly negative
/// numerator and a positive denominator.
pub fn div_floor(num: i128, den: i128) -> (r: i128)
    requires
        0 < den <= 0x1_0000_0000,
        -0x1_0000_0000_0000_0000 <= num <= 0x1_0000_0000_0000_0000,
    ensures
        r as int == (num as int) / (den as int),
{
    if num >= 0 {
        ((num as u128) / (den as u128)) as i128
    } else {
        let m: u128 = (-num) as u128;
        let d: u128 = den as u128;
        let q: u128 = (m + d - 1) / d;
        proof {
            let mi = m as int;
            let di = d as int;
            let qi = q as int;
            vstd::arithmetic::div_mod::lemma_fundamental_div_mod((mi + di - 1) as int, di);
            vstd::arithmetic::div_mod::lemma_mod_bound((mi + di - 1) as int, di);
            assert(qi * di - mi >= 0 && qi * di - mi < di) by (nonlinear_arith)
                requires
                    di > 0,
                    mi > 0,
                    mi + di - 1 == di * qi + ((mi + di - 1) % di),
                    0 <= (mi + di - 1) % di < di;
            assert(num as int == (-qi) * di + (qi * di - mi)) by (nonlinear_arith)
                requires num as int == -mi;
            vstd::arithmetic::div_mod::lemma_fundamental_div_mod_converse_div(
                num as int, di, -qi, qi * di - mi);
        }
        -(q as i128)
    }
}

} // verus!
