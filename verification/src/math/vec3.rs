use vstd::prelude::*;
use vstd::std_specs::ops::AddSpec;
use vstd::std_specs::ops::AddSpecImpl;
use vstd::std_specs::ops::SubSpec;
use vstd::std_specs::ops::SubSpecImpl;

verus! {

/// A three-component vector; `+` and `-` act component-wise.
#[derive(Debug, Clone)]
pub struct vec3<T> {
    pub x: T,
    pub y: T,
    pub z: T,
}

impl<T> vec3<T> where
    T: std::ops::Add<Output = T> + std::ops::Sub<Output = T> + std::ops::Mul<Output = T>
        + std::ops::Div<Output = T> + Copy,
 {
    /// Builds the vector `(x, y, z)`.
    pub fn new(x: T, y: T, z: T) -> (r: Self)
        ensures
            r.x == x,
            r.y == y,
            r.z == z,
    {
        Self { x, y, z }
    }
}

impl<T> std::ops::Add for vec3<T> where T: std::ops::Add<Output = T> {
    type Output = vec3<T>;

    fn add(self, rhs: Self) -> (r: Self::Output) {
        Self { x: self.x + rhs.x, y: self.y + rhs.y, z: self.z + rhs.z }
    }
}

impl<T> AddSpecImpl for vec3<T> where T: std::ops::Add<Output = T> {
    open spec fn obeys_add_spec() -> bool {
        T::obeys_add_spec()
    }

    open spec fn add_req(self, rhs: Self) -> bool {
        self.x.add_req(rhs.x) && self.y.add_req(rhs.y) && self.z.add_req(rhs.z)
    }

    open spec fn add_spec(self, rhs: Self) -> Self {
        vec3 { x: self.x.add_spec(rhs.x), y: self.y.add_spec(rhs.y), z: self.z.add_spec(rhs.z) }
    }
}

impl<T> std::ops::Sub for vec3<T> where T: std::ops::Sub<Output = T> {
    type Output = vec3<T>;

    fn sub(self, rhs: Self) -> (r: Self::Output) {
        Self { x: self.x - rhs.x, y: self.y - rhs.y, z: self.z - rhs.z }
    }
}

impl<T> SubSpecImpl for vec3<T> where T: std::ops::Sub<Output = T> {
    open spec fn obeys_sub_spec() -> bool {
        T::obeys_sub_spec()
    }

    open spec fn sub_req(self, rhs: Self) -> bool {
        self.x.sub_req(rhs.x) && self.y.sub_req(rhs.y) && self.z.sub_req(rhs.z)
    }

    open spec fn sub_spec(self, rhs: Self) -> Self {
        vec3 { x: self.x.sub_spec(rhs.x), y: self.y.sub_spec(rhs.y), z: self.z.sub_spec(rhs.z) }
    }
}

/// On `i32` components, adding `b` and then taking `b` away again gives
/// back `a`, whenever the sum does not overflow.
pub proof fn law_vec3_add_then_sub(a: vec3<i32>, b: vec3<i32>)
    requires
        i32::MIN <= a.x + b.x <= i32::MAX,
        i32::MIN <= a.y + b.y <= i32::MAX,
        i32::MIN <= a.z + b.z <= i32::MAX,
    ensures
        AddSpec::add_req(a, b),
        SubSpec::sub_req(AddSpec::add_spec(a, b), b),
        SubSpec::sub_spec(AddSpec::add_spec(a, b), b) == a,
{
}

/// On `i32` components the operators act component by component: each
/// component of the result is the same operation on the matching components
/// of the operands, whenever that fits in an `i32`.
pub proof fn law_vec3_ops_componentwise(a: vec3<i32>, b: vec3<i32>)
    ensures
        <vec3<i32> as AddSpec>::obeys_add_spec(),
        <vec3<i32> as SubSpec>::obeys_sub_spec(),
        i32::MIN <= a.x + b.x <= i32::MAX && i32::MIN <= a.y + b.y <= i32::MAX && i32::MIN <= a.z + b.z <= i32::MAX ==> AddSpec::add_req(a, b) && AddSpec::add_spec(a, b).x == a.x + b.x && AddSpec::add_spec(a, b).y == a.y + b.y && AddSpec::add_spec(a, b).z == a.z + b.z,
        i32::MIN <= a.x - b.x <= i32::MAX && i32::MIN <= a.y - b.y <= i32::MAX && i32::MIN <= a.z - b.z <= i32::MAX ==> SubSpec::sub_req(a, b) && SubSpec::sub_spec(a, b).x == a.x - b.x && SubSpec::sub_spec(a, b).y == a.y - b.y && SubSpec::sub_spec(a, b).z == a.z - b.z,
{
}

} // verus!
