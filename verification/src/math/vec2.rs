use vstd::prelude::*;
use vstd::std_specs::ops::AddSpec;
use vstd::std_specs::ops::AddSpecImpl;
use vstd::std_specs::ops::SubSpec;
use vstd::std_specs::ops::SubSpecImpl;
use vstd::std_specs::ops::MulSpec;
use vstd::std_specs::ops::MulSpecImpl;
use vstd::std_specs::ops::DivSpec;
use vstd::std_specs::ops::DivSpecImpl;

verus! {

/// A two-component vector; the arithmetic operators act component-wise.
#[derive(Debug, Clone)]
pub struct vec2<T> {
    pub x: T,
    pub y: T,
}

impl<T> vec2<T> where
    T: std::ops::Add<Output = T> + std::ops::Sub<Output = T> + std::ops::Mul<Output = T>
        + std::ops::Div<Output = T> + Copy,
 {
    /// Builds the vector `(x, y)`.
    pub fn new(x: T, y: T) -> (r: Self)
        ensures
            r.x == x,
            r.y == y,
    {
        Self { x, y }
    }
}

impl<T> std::ops::Add for vec2<T> where T: std::ops::Add<Output = T> {
    type Output = vec2<T>;

    fn add(self, rhs: Self) -> (r: Self::Output) {
        Self { x: self.x + rhs.x, y: self.y + rhs.y }
    }
}

impl<T> AddSpecImpl for vec2<T> where T: std::ops::Add<Output = T> {
    open spec fn obeys_add_spec() -> bool {
        T::obeys_add_spec()
    }

    open spec fn add_req(self, rhs: Self) -> bool {
        self.x.add_req(rhs.x) && self.y.add_req(rhs.y)
    }

    open spec fn add_spec(self, rhs: Self) -> Self {
        vec2 { x: self.x.add_spec(rhs.x), y: self.y.add_spec(rhs.y) }
    }
}

impl<T> std::ops::Sub for vec2<T> where T: std::ops::Sub<Output = T> {
    type Output = vec2<T>;

    fn sub(self, rhs: Self) -> (r: Self::Output) {
        Self { x: self.x - rhs.x, y: self.y - rhs.y }
    }
}

impl<T> SubSpecImpl for vec2<T> where T: std::ops::Sub<Output = T> {
    open spec fn obeys_sub_spec() -> bool {
        T::obeys_sub_spec()
    }

    open spec fn sub_req(self, rhs: Self) -> bool {
        self.x.sub_req(rhs.x) && self.y.sub_req(rhs.y)
    }

    open spec fn sub_spec(self, rhs: Self) -> Self {
        vec2 { x: self.x.sub_spec(rhs.x), y: self.y.sub_spec(rhs.y) }
    }
}

impl<T> std::ops::Mul for vec2<T> where T: std::ops::Mul<Output = T> {
    type Output = vec2<T>;

    fn mul(self, rhs: Self) -> (r: Self::Output) {
        Self { x: self.x * rhs.x, y: self.y * rhs.y }
    }
}

impl<T> MulSpecImpl for vec2<T> where T: std::ops::Mul<Output = T> {
    open spec fn obeys_mul_spec() -> bool {
        T::obeys_mul_spec()
    }

    open spec fn mul_req(self, rhs: Self) -> bool {
        self.x.mul_req(rhs.x) && self.y.mul_req(rhs.y)
    }

    open spec fn mul_spec(self, rhs: Self) -> Self {
        vec2 { x: self.x.mul_spec(rhs.x), y: self.y.mul_spec(rhs.y) }
    }
}

impl<T> std::ops::Div for vec2<T> where T: std::ops::Div<Output = T> {
    type Output = vec2<T>;

    fn div(self, rhs: Self) -> (r: Self::Output) {
        Self { x: self.x / rhs.x, y: self.y / rhs.y }
    }
}

impl<T> DivSpecImpl for vec2<T> where T: std::ops::Div<Output = T> {
    open spec fn obeys_div_spec() -> bool {
        T::obeys_div_spec()
    }

    open spec fn div_req(self, rhs: Self) -> bool {
        self.x.div_req(rhs.x) && self.y.div_req(rhs.y)
    }

    open spec fn div_spec(self, rhs: Self) -> Self {
        vec2 { x: self.x.div_spec(rhs.x), y: self.y.div_spec(rhs.y) }
    }
}

/// On `i32` components, adding `b` and then taking `b` away again gives
/// back `a`, whenever the sum does not overflow.
pub proof fn law_vec2_add_then_sub(a: vec2<i32>, b: vec2<i32>)
    requires
        i32::MIN <= a.x + b.x <= i32::MAX,
        i32::MIN <= a.y + b.y <= i32::MAX,
    ensures
        AddSpec::add_req(a, b),
        SubSpec::sub_req(AddSpec::add_spec(a, b), b),
        SubSpec::sub_spec(AddSpec::add_spec(a, b), b) == a,
{
}

/// On `i32` components the operators act component by component: each
/// component of the result is the same operation on the matching components
/// of the operands, whenever that fits in an `i32`.
pub proof fn law_vec2_ops_componentwise(a: vec2<i32>, b: vec2<i32>)
    ensures
        <vec2<i32> as AddSpec>::obeys_add_spec(),
        <vec2<i32> as SubSpec>::obeys_sub_spec(),
        <vec2<i32> as MulSpec>::obeys_mul_spec(),
        i32::MIN <= a.x + b.x <= i32::MAX && i32::MIN <= a.y + b.y <= i32::MAX ==> AddSpec::add_req(a, b) && AddSpec::add_spec(a, b).x == a.x + b.x && AddSpec::add_spec(a, b).y == a.y + b.y,
        i32::MIN <= a.x - b.x <= i32::MAX && i32::MIN <= a.y - b.y <= i32::MAX ==> SubSpec::sub_req(a, b) && SubSpec::sub_spec(a, b).x == a.x - b.x && SubSpec::sub_spec(a, b).y == a.y - b.y,
        i32::MIN <= a.x * b.x <= i32::MAX && i32::MIN <= a.y * b.y <= i32::MAX ==> MulSpec::mul_req(a, b) && MulSpec::mul_spec(a, b).x == a.x * b.x && MulSpec::mul_spec(a, b).y == a.y * b.y,
{
}

/// On `u32` components division acts component by component: each
/// component of the quotient is the matching component of `a` divided by
/// that of `b`, rounded down.
pub proof fn law_vec2_div_componentwise(a: vec2<u32>, b: vec2<u32>)
    requires
        b.x != 0,
        b.y != 0,
    ensures
        <vec2<u32> as DivSpec>::obeys_div_spec(),
        DivSpec::div_req(a, b),
        DivSpec::div_spec(a, b).x == a.x / b.x,
        DivSpec::div_spec(a, b).y == a.y / b.y,
{
}

} // verus!
