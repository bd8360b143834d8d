use vstd::prelude::*;

verus! {

/// The largest absolute value that a coordinate of a point of a line can
/// take: an origin coordinate plus a direction coordinate times a line
/// coordinate, each of 32 bits.
pub const POSITION_MAX: i64 = 0x4000_0000_8000_0000;

/// A position on a curve, in the curve's own coordinate system.
#[derive(Clone, Copy, Debug, PartialEq, Eq, Structural)]
pub struct Point1 {
    pub t: i32,
}

/// A displacement on a surface, in the surface's grid units.
#[derive(Clone, Copy, Debug, PartialEq, Eq, Structural)]
pub struct Vector2 {
    pub u: i32,
    pub v: i32,
}

/// A position on a surface, in the surface's grid units.
#[derive(Clone, Copy, Debug, PartialEq, Eq, Structural)]
pub struct Point2 {
    pub u: i64,
    pub v: i64,
}

/// A line on a surface: the points `origin + direction * t`.
#[derive(Clone, Copy, Debug, PartialEq, Eq, Structural)]
pub struct Line {
    pub origin: Vector2,
    pub direction: Vector2,
}

/// A piece of a curve between two positions on it.
#[derive(Clone, Copy, Debug, PartialEq, Eq)]
pub struct LineSegment {
    pub points: [Point2; 2],
    pub points_line: [Point1; 2],
}

/// The two ends of a piece of a curve, as positions on the curve.
#[derive(Clone, Copy, Debug, PartialEq, Eq)]
pub struct CurveBoundary {
    pub inner: [Point1; 2],
}

/// How far an approximation may lie from what it approximates, in grid
/// units.
#[derive(Clone, Copy, Debug, PartialEq, Eq, Structural)]
pub struct Tolerance {
    pub inner: u64,
}

/// A position in space.
#[derive(Clone, Copy, Debug, PartialEq, Eq, Structural)]
pub struct Point3 {
    pub x: i64,
    pub y: i64,
    pub z: i64,
}

/// A displacement in space.
#[derive(Clone, Copy, Debug, PartialEq, Eq, Structural)]
pub struct Vector3 {
    pub x: i64,
    pub y: i64,
    pub z: i64,
}

/// A plane in space: the positions `origin + u * a + v * b`.
#[derive(Clone, Copy, Debug, PartialEq, Eq, Structural)]
pub struct Plane {
    pub origin: Point3,
    pub u: Vector3,
    pub v: Vector3,
}

/// One row of the linear part of a transform.
#[derive(Clone, Copy, Debug, PartialEq, Eq, Structural)]
pub struct Row3 {
    pub x: i32,
    pub y: i32,
    pub z: i32,
}

/// An affine transform of space on the grid. Its three rows are its linear
/// part: a position `p` goes to `rows * p + translation`, a displacement
/// `d` to `rows * d`. Quarter turns, mirrors, scalings and translations are
/// of this form.
#[derive(Clone, Copy, Debug, PartialEq, Eq, Structural)]
pub struct Transform {
    pub row_x: Row3,
    pub row_y: Row3,
    pub row_z: Row3,
    pub translation: Vector3,
}

/// One coordinate of the linear part applied to `(x, y, z)`.
pub open spec fn dot(row: Row3, x: int, y: int, z: int) -> int {
    row.x * x + row.y * y + row.z * z
}

/// Whether a coordinate fits the machine's integers.
pub open spec fn fits_i64(value: int) -> bool {
    i64::MIN <= value <= i64::MAX
}

/// The square of the Euclidean distance between two positions.
pub open spec fn squared_distance(a: Point2, b: Point2) -> int {
    (a.u - b.u) * (a.u - b.u) + (a.v - b.v) * (a.v - b.v)
}

/// Whether `root` is the square root of `n`, rounded down.
pub open spec fn is_floor_sqrt(n: int, root: int) -> bool {
    0 <= root && root * root <= n < (root + 1) * (root + 1)
}

/// The square root of `n`, rounded down.
pub open spec fn floor_sqrt(n: int) -> int {
    choose|root: int| is_floor_sqrt(n, root)
}

/// Whether `root` is the square root of `n`, rounded up: the smallest
/// number whose square is not below `n`.
pub open spec fn is_ceil_sqrt(n: int, root: int) -> bool {
    0 <= root && n <= root * root && (root == 0 || (root - 1) * (root - 1) < n)
}

/// The square root of `n`, rounded up.
pub open spec fn ceil_sqrt(n: int) -> int {
    choose|root: int| is_ceil_sqrt(n, root)
}

/// The square of the largest 64-bit number: up to it the square root
/// rounded up fits 64 bits.
pub const SQUARE_MAX: u128 = 0xffff_ffff_ffff_fffe_0000_0000_0000_0001;

/// The Euclidean distance between two positions, rounded up to whole grid
/// units: the gap itself where the gap is whole, and else the next whole
/// number above it.
pub open spec fn distance(a: Point2, b: Point2) -> int {
    ceil_sqrt(squared_distance(a, b))
}

/// The position at line coordinate `t` of the line.
pub open spec fn point_on_line(line: Line, t: int) -> (int, int) {
    (line.origin.u + line.direction.u * t, line.origin.v + line.direction.v * t)
}

/// The product of two 32-bit numbers stays within 2^62 of zero.
pub proof fn product_fits(a: i32, b: i32)
    ensures
        -0x4000_0000_0000_0000 <= a * b <= 0x4000_0000_0000_0000,
{
    assert(-0x4000_0000_0000_0000 <= a * b <= 0x4000_0000_0000_0000) by (nonlinear_arith)
        requires
            -0x8000_0000 <= a <= 0x7fff_ffff,
            -0x8000_0000 <= b <= 0x7fff_ffff,
    ;
}

/// The square of the gap between two coordinates of points of lines stays
/// below 2^126 + 2^96 + 2^64.
pub proof fn square_fits(d: int)
    requires
        -0x8000_0001_0000_0000 <= d <= 0x8000_0001_0000_0000,
    ensures
        0 <= d * d <= 0x4000_0001_0000_0001_0000_0000_0000_0000,
{
    assert(0 <= d * d <= 0x4000_0001_0000_0001_0000_0000_0000_0000) by (nonlinear_arith)
        requires
            -0x8000_0001_0000_0000 <= d <= 0x8000_0001_0000_0000,
    ;
}

fn gap(a: i64, b: i64) -> (d: u128)
    requires
        -POSITION_MAX <= a <= POSITION_MAX,
        -POSITION_MAX <= b <= POSITION_MAX,
    ensures
        d * d == (a - b) * (a - b),
        d <= 0x8000_0001_0000_0000,
{
    let wide_a: i128 = a as i128;
    let wide_b: i128 = b as i128;
    let d: u128 = if wide_a >= wide_b {
        (wide_a - wide_b) as u128
    } else {
        (wide_b - wide_a) as u128
    };
    assert(d * d == (a - b) * (a - b)) by (nonlinear_arith)
        requires
            d == a - b || d == b - a,
    ;
    d
}

/// A number has at most one square root rounded down.
pub proof fn floor_sqrt_is_unique(n: int, root: int, other: int)
    requires
        is_floor_sqrt(n, root),
        is_floor_sqrt(n, other),
    ensures
        root == other,
{
    if root < other {
        assert((root + 1) * (root + 1) <= other * other) by (nonlinear_arith)
            requires
                0 <= root + 1 <= other,
        ;
    }
    if other < root {
        assert((other + 1) * (other + 1) <= root * root) by (nonlinear_arith)
            requires
                0 <= other + 1 <= root,
        ;
    }
}

/// Every number that is not negative has a square root rounded down.
pub proof fn root_exists(n: int)
    requires
        0 <= n,
    ensures
        is_floor_sqrt(n, floor_sqrt(n)),
    decreases n,
{
    if n == 0 {
        assert(is_floor_sqrt(0, 0));
    } else {
        root_exists(n - 1);
        let below = floor_sqrt(n - 1);
        if n < (below + 1) * (below + 1) {
            assert(is_floor_sqrt(n, below));
        } else {
            assert(n == (below + 1) * (below + 1));
            assert((below + 1) * (below + 1) < (below + 2) * (below + 2)) by (nonlinear_arith)
                requires
                    0 <= below,
            ;
            assert(is_floor_sqrt(n, below + 1));
        }
    }
}

/// The square root of `n`, rounded down.
pub fn integer_sqrt(n: u128) -> (root: u64)
    ensures
        is_floor_sqrt(n as int, root as int),
        root == floor_sqrt(n as int),
{
    let mut low: u128 = 0;
    let mut high: u128 = 0x1_0000_0000_0000_0000;
    assert(n < high * high) by (nonlinear_arith)
        requires
            n <= u128::MAX,
            high == 0x1_0000_0000_0000_0000,
    ;
    while high - low > 1
        invariant
            low < high <= 0x1_0000_0000_0000_0000,
            low * low <= n < high * high,
        decreases high - low,
    {
        let middle: u128 = low + (high - low) / 2;
        assert(middle * middle <= 0xffff_ffff_ffff_ffff * 0xffff_ffff_ffff_ffff)
            by (nonlinear_arith)
            requires
                0 <= middle <= 0xffff_ffff_ffff_ffff,
        ;
        if middle * middle <= n {
            low = middle;
        } else {
            high = middle;
        }
    }
    proof {
        floor_sqrt_is_unique(n as int, low as int, floor_sqrt(n as int));
    }
    low as u64
}

/// A number has at most one square root rounded up.
pub proof fn ceil_sqrt_is_unique(n: int, root: int, other: int)
    requires
        is_ceil_sqrt(n, root),
        is_ceil_sqrt(n, other),
    ensures
        root == other,
{
    if root < other {
        assert(root * root <= (other - 1) * (other - 1)) by (nonlinear_arith)
            requires
                0 <= root <= other - 1,
        ;
    }
    if other < root {
        assert(other * other <= (root - 1) * (root - 1)) by (nonlinear_arith)
            requires
                0 <= other <= root - 1,
        ;
    }
}

/// Every number that is not negative has a square root rounded up.
pub proof fn ceil_root_exists(n: int)
    requires
        0 <= n,
    ensures
        is_ceil_sqrt(n, ceil_sqrt(n)),
{
    root_exists(n);
    let below = floor_sqrt(n);
    if below * below == n {
        if below > 0 {
            assert((below - 1) * (below - 1) < below * below) by (nonlinear_arith)
                requires
                    below > 0,
            ;
        }
        assert(is_ceil_sqrt(n, below));
    } else {
        assert(is_ceil_sqrt(n, below + 1));
    }
}

/// The square root of a whole square, rounded up, is the root itself.
pub proof fn ceil_sqrt_of_a_square(root: int)
    requires
        0 <= root,
    ensures
        ceil_sqrt(root * root) == root,
{
    if root > 0 {
        assert((root - 1) * (root - 1) < root * root) by (nonlinear_arith)
            requires
                root > 0,
        ;
    }
    assert(is_ceil_sqrt(root * root, root));
    assert(0 <= root * root) by (nonlinear_arith);
    ceil_root_exists(root * root);
    ceil_sqrt_is_unique(root * root, root, ceil_sqrt(root * root));
}

/// The square root of `n`, rounded up.
pub fn integer_sqrt_up(n: u128) -> (root: u64)
    requires
        n <= SQUARE_MAX,
    ensures
        is_ceil_sqrt(n as int, root as int),
        root == ceil_sqrt(n as int),
{
    let below: u64 = integer_sqrt(n);
    assert(below * below <= 0xffff_ffff_ffff_ffff * 0xffff_ffff_ffff_ffff) by (nonlinear_arith)
        requires
            0 <= below <= 0xffff_ffff_ffff_ffff,
    ;
    let wide: u128 = below as u128;
    let root: u64 = if wide * wide == n {
        proof {
            if below > 0 {
                assert((below - 1) * (below - 1) < below * below) by (nonlinear_arith)
                    requires
                        below > 0,
                ;
            }
        }
        below
    } else {
        assert(below < 0xffff_ffff_ffff_ffff) by {
            if below == 0xffff_ffff_ffff_ffff {
                assert(below * below == SQUARE_MAX) by (nonlinear_arith)
                    requires
                        below == 0xffff_ffff_ffff_ffff,
                ;
            }
        }
        below + 1
    };
    proof {
        ceil_root_exists(n as int);
        ceil_sqrt_is_unique(n as int, root as int, ceil_sqrt(n as int));
    }
    root
}

impl Point2 {
    /// Whether the position is one that a point of a line can take.
    pub open spec fn bounded(&self) -> bool {
        -POSITION_MAX <= self.u <= POSITION_MAX && -POSITION_MAX <= self.v <= POSITION_MAX
    }

    /// The square of the Euclidean distance to `other`.
    pub fn squared_distance_to(&self, other: &Point2) -> (d: u128)
        requires
            self.bounded(),
            other.bounded(),
        ensures
            d == squared_distance(*self, *other),
            d <= SQUARE_MAX,
    {
        let du: u128 = gap(self.u, other.u);
        let dv: u128 = gap(self.v, other.v);
        proof {
            square_fits(du as int);
            square_fits(dv as int);
        }
        du * du + dv * dv
    }

    /// The Euclidean distance to `other`, rounded up to whole grid units.
    pub fn distance_to(&self, other: &Point2) -> (d: u64)
        requires
            self.bounded(),
            other.bounded(),
        ensures
            d == distance(*self, *other),
    {
        integer_sqrt_up(self.squared_distance_to(other))
    }
}

impl Line {
    /// The line through `origin` along `direction`, which must not be zero:
    /// a zero direction gives no line.
    pub fn from_origin_and_direction(origin: Vector2, direction: Vector2) -> (line: Option<Line>)
        ensures
            line == if direction.u == 0 && direction.v == 0 {
                None
            } else {
                Some(Line { origin, direction })
            },
    {
        if direction.u == 0 && direction.v == 0 {
            None
        } else {
            Some(Line { origin, direction })
        }
    }

    /// The position at line coordinate zero.
    pub fn origin(&self) -> (origin: Point2)
        ensures
            origin.u == self.origin.u,
            origin.v == self.origin.v,
            origin.bounded(),
    {
        Point2 { u: self.origin.u as i64, v: self.origin.v as i64 }
    }

    /// The displacement from line coordinate zero to line coordinate one.
    pub fn direction(&self) -> (direction: Vector2)
        ensures
            direction == self.direction,
    {
        self.direction
    }

    /// The position on the surface of a position on the line.
    pub fn point_from_line_coords(&self, point: Point1) -> (position: Point2)
        ensures
            (position.u as int, position.v as int) == point_on_line(*self, point.t as int),
            position.bounded(),
    {
        proof {
            product_fits(self.direction.u, point.t);
            product_fits(self.direction.v, point.t);
        }
        let t: i64 = point.t as i64;
        Point2 {
            u: self.origin.u as i64 + (self.direction.u as i64) * t,
            v: self.origin.v as i64 + (self.direction.v as i64) * t,
        }
    }

    /// Whether the line that runs the other way fits the grid.
    pub open spec fn reversible(&self) -> bool {
        &&& i32::MIN <= self.origin.u + self.direction.u <= i32::MAX
        &&& i32::MIN <= self.origin.v + self.direction.v <= i32::MAX
        &&& self.direction.u != i32::MIN
        &&& self.direction.v != i32::MIN
    }

    /// The line that runs the other way.
    pub open spec fn reversed(&self) -> Line {
        Line {
            origin: Vector2 {
                u: (self.origin.u + self.direction.u) as i32,
                v: (self.origin.v + self.direction.v) as i32,
            },
            direction: Vector2 { u: (-self.direction.u) as i32, v: (-self.direction.v) as i32 },
        }
    }

    /// Whether `reverse` can be called on the line.
    pub fn can_reverse(&self) -> (fits: bool)
        ensures
            fits == self.reversible(),
    {
        let u: i64 = self.origin.u as i64 + self.direction.u as i64;
        let v: i64 = self.origin.v as i64 + self.direction.v as i64;
        -0x8000_0000 <= u && u <= 0x7fff_ffff && -0x8000_0000 <= v && v <= 0x7fff_ffff
            && self.direction.u != i32::MIN && self.direction.v != i32::MIN
    }

    /// The same points, walked the other way: line coordinate `t` of the
    /// result is line coordinate `1 - t` of `self`.
    pub fn reverse(self) -> (line: Line)
        requires
            self.reversible(),
        ensures
            line == self.reversed(),
    {
        Line {
            origin: Vector2 {
                u: self.origin.u + self.direction.u,
                v: self.origin.v + self.direction.v,
            },
            direction: Vector2 { u: -self.direction.u, v: -self.direction.v },
        }
    }

    /// The segment that approximates the line around one position. A line
    /// is straight, so whatever the tolerance the segment is that position
    /// alone: both of its ends are the position.
    pub fn line_segment_at(&self, point_curve: Point1, tolerance: Tolerance) -> (segment:
        LineSegment)
        ensures
            segment.points_line[0] == point_curve,
            segment.points_line[1] == point_curve,
            segment.points[0] == segment.points[1],
            (segment.points[0].u as int, segment.points[0].v as int) == point_on_line(
                *self,
                point_curve.t as int,
            ),
    {
        let point = self.point_from_line_coords(point_curve);
        LineSegment { points: [point, point], points_line: [point_curve, point_curve] }
    }

    /// The positions that approximate the line between the two ends of
    /// `boundary`: a line is straight, so whatever the tolerance they are
    /// the two ends.
    pub fn generate_polyline(&self, boundary: CurveBoundary, tolerance: Tolerance) -> (polyline:
        Vec<Point1>)
        ensures
            polyline@ =~= seq![boundary.inner[0], boundary.inner[1]],
    {
        let mut polyline: Vec<Point1> = Vec::new();
        polyline.push(boundary.inner[0]);
        polyline.push(boundary.inner[1]);
        polyline
    }
}

/// The product of a 32-bit and a 64-bit number stays within 2^94 of zero.
pub proof fn scaled_fits(a: i32, b: i64)
    ensures
        -0x4000_0000_0000_0000_0000_0000 <= a * b <= 0x4000_0000_0000_0000_0000_0000,
{
    assert(-0x4000_0000_0000_0000_0000_0000 <= a * b <= 0x4000_0000_0000_0000_0000_0000)
        by (nonlinear_arith)
        requires
            -0x8000_0000 <= a <= 0x7fff_ffff,
            -0x8000_0000_0000_0000 <= b <= 0x7fff_ffff_ffff_ffff,
    ;
}

/// One coordinate of an image under a transform, where it fits.
fn image_coordinate(row: &Row3, x: i64, y: i64, z: i64, shift: i64) -> (image: Option<i64>)
    ensures
        image == if fits_i64(dot(*row, x as int, y as int, z as int) + shift) {
            Some((dot(*row, x as int, y as int, z as int) + shift) as i64)
        } else {
            None
        },
{
    proof {
        scaled_fits(row.x, x);
        scaled_fits(row.y, y);
        scaled_fits(row.z, z);
    }
    let sum: i128 = (row.x as i128) * (x as i128) + (row.y as i128) * (y as i128) + (row.z as i128)
        * (z as i128) + (shift as i128);
    if sum < -0x8000_0000_0000_0000 || sum > 0x7fff_ffff_ffff_ffff {
        None
    } else {
        Some(sum as i64)
    }
}

impl Transform {
    /// The transform that moves nothing.
    pub fn identity() -> (transform: Self)
        ensures
            transform == Transform::translation_spec(Vector3 { x: 0, y: 0, z: 0 }),
    {
        Transform::translation(Vector3 { x: 0, y: 0, z: 0 })
    }

    /// The transform that moves every position by `offset` and keeps every
    /// displacement.
    pub open spec fn translation_spec(offset: Vector3) -> Transform {
        Transform {
            row_x: Row3 { x: 1, y: 0, z: 0 },
            row_y: Row3 { x: 0, y: 1, z: 0 },
            row_z: Row3 { x: 0, y: 0, z: 1 },
            translation: offset,
        }
    }

    /// The transform that moves every position by `offset` and keeps every
    /// displacement.
    pub fn translation(offset: Vector3) -> (transform: Self)
        ensures
            transform == Transform::translation_spec(offset),
    {
        Transform {
            row_x: Row3 { x: 1, y: 0, z: 0 },
            row_y: Row3 { x: 0, y: 1, z: 0 },
            row_z: Row3 { x: 0, y: 0, z: 1 },
            translation: offset,
        }
    }

    /// The coordinates of the image of a position.
    pub open spec fn point_image(&self, p: Point3) -> (int, int, int) {
        (
            dot(self.row_x, p.x as int, p.y as int, p.z as int) + self.translation.x,
            dot(self.row_y, p.x as int, p.y as int, p.z as int) + self.translation.y,
            dot(self.row_z, p.x as int, p.y as int, p.z as int) + self.translation.z,
        )
    }

    /// The coordinates of the image of a displacement.
    pub open spec fn vector_image(&self, d: Vector3) -> (int, int, int) {
        (
            dot(self.row_x, d.x as int, d.y as int, d.z as int),
            dot(self.row_y, d.x as int, d.y as int, d.z as int),
            dot(self.row_z, d.x as int, d.y as int, d.z as int),
        )
    }

    /// Whether all three coordinates fit the machine's integers.
    pub open spec fn fits(image: (int, int, int)) -> bool {
        fits_i64(image.0) && fits_i64(image.1) && fits_i64(image.2)
    }

    /// The image of a position, where it fits the machine's integers.
    pub fn transform_point(&self, p: &Point3) -> (image: Option<Point3>)
        ensures
            image == if Self::fits(self.point_image(*p)) {
                Some(
                    Point3 {
                        x: self.point_image(*p).0 as i64,
                        y: self.point_image(*p).1 as i64,
                        z: self.point_image(*p).2 as i64,
                    },
                )
            } else {
                None
            },
    {
        let x = image_coordinate(&self.row_x, p.x, p.y, p.z, self.translation.x);
        let y = image_coordinate(&self.row_y, p.x, p.y, p.z, self.translation.y);
        let z = image_coordinate(&self.row_z, p.x, p.y, p.z, self.translation.z);
        match (x, y, z) {
            (Some(x), Some(y), Some(z)) => Some(Point3 { x, y, z }),
            _ => None,
        }
    }

    /// The image of a displacement, where it fits the machine's integers.
    pub fn transform_vector(&self, d: &Vector3) -> (image: Option<Vector3>)
        ensures
            image == if Self::fits(self.vector_image(*d)) {
                Some(
                    Vector3 {
                        x: self.vector_image(*d).0 as i64,
                        y: self.vector_image(*d).1 as i64,
                        z: self.vector_image(*d).2 as i64,
                    },
                )
            } else {
                None
            },
    {
        let x = image_coordinate(&self.row_x, d.x, d.y, d.z, 0);
        let y = image_coordinate(&self.row_y, d.x, d.y, d.z, 0);
        let z = image_coordinate(&self.row_z, d.x, d.y, d.z, 0);
        match (x, y, z) {
            (Some(x), Some(y), Some(z)) => Some(Vector3 { x, y, z }),
            _ => None,
        }
    }
}

impl Plane {
    /// Whether the image of the plane under `transform` fits the machine's
    /// integers.
    pub open spec fn fits(&self, transform: &Transform) -> bool {
        &&& Transform::fits(transform.point_image(self.origin))
        &&& Transform::fits(transform.vector_image(self.u))
        &&& Transform::fits(transform.vector_image(self.v))
    }

    /// The image of the plane under `transform`: the image of its origin
    /// and of its two directions.
    pub open spec fn transformed(&self, transform: &Transform) -> Plane {
        Plane {
            origin: Point3 {
                x: transform.point_image(self.origin).0 as i64,
                y: transform.point_image(self.origin).1 as i64,
                z: transform.point_image(self.origin).2 as i64,
            },
            u: Vector3 {
                x: transform.vector_image(self.u).0 as i64,
                y: transform.vector_image(self.u).1 as i64,
                z: transform.vector_image(self.u).2 as i64,
            },
            v: Vector3 {
                x: transform.vector_image(self.v).0 as i64,
                y: transform.vector_image(self.v).1 as i64,
                z: transform.vector_image(self.v).2 as i64,
            },
        }
    }

    /// The image of the plane under `transform`, where it fits the
    /// machine's integers.
    pub fn checked_transform(&self, transform: &Transform) -> (plane: Option<Plane>)
        ensures
            plane == if self.fits(transform) {
                Some(self.transformed(transform))
            } else {
                None
            },
    {
        let origin = transform.transform_point(&self.origin);
        let u = transform.transform_vector(&self.u);
        let v = transform.transform_vector(&self.v);
        match (origin, u, v) {
            (Some(origin), Some(u), Some(v)) => Some(Plane { origin, u, v }),
            _ => None,
        }
    }

    /// Whether `transform` can be called with these arguments.
    pub fn can_transform(&self, transform: &Transform) -> (fits: bool)
        ensures
            fits == self.fits(transform),
    {
        self.checked_transform(transform).is_some()
    }

    /// The image of the plane under `transform`.
    pub fn transform(&self, transform: &Transform) -> (plane: Plane)
        requires
            self.fits(transform),
        ensures
            plane == self.transformed(transform),
    {
        self.checked_transform(transform).unwrap()
    }
}

/// The transform that moves nothing leaves every plane as it is.
pub proof fn identity_keeps_planes(plane: Plane)
    ensures
        plane.fits(&Transform::translation_spec(Vector3 { x: 0, y: 0, z: 0 })),
        plane.transformed(&Transform::translation_spec(Vector3 { x: 0, y: 0, z: 0 })) == plane,
{
}

/// A translation moves the origin of a plane and keeps its directions.
pub proof fn translation_moves_the_origin(plane: Plane, offset: Vector3)
    requires
        plane.fits(&Transform::translation_spec(offset)),
    ensures
        plane.transformed(&Transform::translation_spec(offset)) == (Plane {
            origin: Point3 {
                x: (plane.origin.x + offset.x) as i64,
                y: (plane.origin.y + offset.y) as i64,
                z: (plane.origin.z + offset.z) as i64,
            },
            u: plane.u,
            v: plane.v,
        }),
{
}

/// Reversing a line twice gives the line back.
pub proof fn reverse_is_an_involution(line: Line)
    requires
        line.reversible(),
    ensures
        line.reversed().reversible(),
        line.reversed().reversed() == line,
{
}

/// A reversed line passes through the same positions, with the line
/// coordinate counted from the other end.
pub proof fn reverse_keeps_the_points(line: Line, t: int)
    requires
        line.reversible(),
    ensures
        point_on_line(line.reversed(), 1 - t) == point_on_line(line, t),
{
    let r = line.reversed();
    assert(r.direction.u * (1 - t) == -(line.direction.u * (1 - t))) by (nonlinear_arith)
        requires
            r.direction.u == -line.direction.u,
    ;
    assert(r.direction.v * (1 - t) == -(line.direction.v * (1 - t))) by (nonlinear_arith)
        requires
            r.direction.v == -line.direction.v,
    ;
    assert(line.direction.u * (1 - t) == line.direction.u - line.direction.u * t)
        by (nonlinear_arith);
    assert(line.direction.v * (1 - t) == line.direction.v - line.direction.v * t)
        by (nonlinear_arith);
}

} // verus!
