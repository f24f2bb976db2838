use vstd::prelude::*;

verus! {

/// An integer point or offset on the terminal grid.
#[derive(Debug, Clone, Copy, PartialEq, Eq, Structural)]
pub struct Vector {
    pub x: i32,
    pub y: i32,
}

/// True when `v` fits in an `i32`.
pub open spec fn fits_i32(v: int) -> bool {
    i32::MIN <= v <= i32::MAX
}

/// Component sum.
pub open spec fn plus(a: Vector, b: Vector) -> Vector {
    Vector { x: (a.x + b.x) as i32, y: (a.y + b.y) as i32 }
}

impl Vector {
    /// The vector `(x, y)`.
    pub fn new(x: i32, y: i32) -> (r: Self)
        ensures
            r.x == x,
            r.y == y,
    {
        Vector { x, y }
    }

    /// A copy with the horizontal component replaced.
    pub fn set_x(&self, x: i32) -> (r: Self)
        ensures
            r.x == x,
            r.y == self.y,
    {
        Vector { x, y: self.y }
    }

    /// A copy with the vertical component replaced.
    pub fn set_y(&self, y: i32) -> (r: Self)
        ensures
            r.x == self.x,
            r.y == y,
    {
        Vector { x: self.x, y }
    }
}

impl core::ops::Add for Vector {
    type Output = Vector;

    fn add(self, rhs: Vector) -> (r: Vector) {
        Vector { x: self.x + rhs.x, y: self.y + rhs.y }
    }
}

impl vstd::std_specs::ops::AddSpecImpl for Vector {
    open spec fn obeys_add_spec() -> bool {
        true
    }

    open spec fn add_req(self, rhs: Vector) -> bool {
        fits_i32(self.x + rhs.x) && fits_i32(self.y + rhs.y)
    }

    open spec fn add_spec(self, rhs: Vector) -> Vector {
        plus(self, rhs)
    }
}

/// Quotient rounded toward zero, as Rust's `/` on integers.
pub open spec fn trunc_div(a: int, b: int) -> int {
    if b > 0 {
        if a >= 0 { a / b } else { -((-a) / b) }
    } else {
        if a >= 0 { -(a / (-b)) } else { (-a) / (-b) }
    }
}

/// Component quotient, rounded toward zero.
fn div_component(a: i32, b: i32) -> (q: i32)
    requires
        b != 0,
        !(a == i32::MIN && b == -1),
    ensures
        q == trunc_div(a as int, b as int),
{
    if b > 0 {
        let q = a / b;
        proof {
            let (ai, bi) = (a as int, b as int);
            if ai < 0 {
                assert(q == -((-ai) / bi));
            } else {
                assert(q == ai / bi);
            }
        }
        q
    } else if b == i32::MIN {
        proof {
            let ai = a as int;
            let bi = -(b as int);
            if ai >= 0 {
                vstd::arithmetic::div_mod::lemma_basic_div(ai, bi);
            } else if ai > i32::MIN {
                vstd::arithmetic::div_mod::lemma_basic_div(-ai, bi);
            } else {
                vstd::arithmetic::div_mod::lemma_div_basics(bi);
            }
        }
        if a == i32::MIN { 1 } else { 0 }
    } else {
        let nb: i32 = -b;
        let q = a / nb;
        proof {
            let (ai, bi) = (a as int, nb as int);
            if ai < 0 {
                assert(q == -((-ai) / bi));
                if bi == 1 {
                    assert(ai > i32::MIN);
                } else {
                    assert((-ai) / bi < 0x8000_0000) by (nonlinear_arith)
                        requires -ai >= 0, -ai <= 0x8000_0000, bi >= 2;
                }
                assert((-ai) / bi >= 0) by (nonlinear_arith) requires -ai >= 0, bi >= 1;
            } else {
                assert(q == ai / bi);
                assert(ai / bi <= ai) by (nonlinear_arith) requires ai >= 0, bi >= 1;
                assert(ai / bi >= 0) by (nonlinear_arith) requires ai >= 0, bi >= 1;
            }
        }
        -q
    }
}

impl core::ops::Sub for Vector {
    type Output = Vector;

    fn sub(self, rhs: Vector) -> (r: Vector) {
        Vector { x: self.x - rhs.x, y: self.y - rhs.y }
    }
}

impl vstd::std_specs::ops::SubSpecImpl for Vector {
    open spec fn obeys_sub_spec() -> bool {
        true
    }

    open spec fn sub_req(self, rhs: Vector) -> bool {
        fits_i32(self.x - rhs.x) && fits_i32(self.y - rhs.y)
    }

    open spec fn sub_spec(self, rhs: Vector) -> Vector {
        Vector { x: (self.x - rhs.x) as i32, y: (self.y - rhs.y) as i32 }
    }
}

impl core::ops::Mul for Vector {
    type Output = Vector;

    fn mul(self, rhs: Vector) -> (r: Vector) {
        Vector { x: self.x * rhs.x, y: self.y * rhs.y }
    }
}

impl vstd::std_specs::ops::MulSpecImpl for Vector {
    open spec fn obeys_mul_spec() -> bool {
        true
    }

    open spec fn mul_req(self, rhs: Vector) -> bool {
        fits_i32(self.x * rhs.x) && fits_i32(self.y * rhs.y)
    }

    open spec fn mul_spec(self, rhs: Vector) -> Vector {
        Vector { x: (self.x * rhs.x) as i32, y: (self.y * rhs.y) as i32 }
    }
}

/// True when `a / b` is defined on `i32`: no zero divisor, no overflow.
pub open spec fn div_defined(a: i32, b: i32) -> bool {
    b != 0 && !(a == i32::MIN && b == -1)
}

impl core::ops::Div for Vector {
    type Output = Vector;

    fn div(self, rhs: Vector) -> (r: Vector) {
        Vector { x: div_component(self.x, rhs.x), y: div_component(self.y, rhs.y) }
    }
}

impl vstd::std_specs::ops::DivSpecImpl for Vector {
    open spec fn obeys_div_spec() -> bool {
        true
    }

    open spec fn div_req(self, rhs: Vector) -> bool {
        div_defined(self.x, rhs.x) && div_defined(self.y, rhs.y)
    }

    open spec fn div_spec(self, rhs: Vector) -> Vector {
        Vector {
            x: trunc_div(self.x as int, rhs.x as int) as i32,
            y: trunc_div(self.y as int, rhs.y as int) as i32,
        }
    }
}

impl From<(i32, i32)> for Vector {
    fn from(p: (i32, i32)) -> (r: Vector) {
        Vector { x: p.0, y: p.1 }
    }
}

impl vstd::std_specs::convert::FromSpecImpl<(i32, i32)> for Vector {
    open spec fn obeys_from_spec() -> bool {
        true
    }

    open spec fn from_spec(p: (i32, i32)) -> Vector {
        Vector { x: p.0, y: p.1 }
    }
}

/// Terminal dimensions, width and height in cells.
impl From<(u16, u16)> for Vector {
    fn from(p: (u16, u16)) -> (r: Vector) {
        Vector { x: p.0 as i32, y: p.1 as i32 }
    }
}

impl vstd::std_specs::convert::FromSpecImpl<(u16, u16)> for Vector {
    open spec fn obeys_from_spec() -> bool {
        true
    }

    open spec fn from_spec(p: (u16, u16)) -> Vector {
        Vector { x: p.0 as i32, y: p.1 as i32 }
    }
}

} // verus!
