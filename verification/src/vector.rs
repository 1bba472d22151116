//! Two-dimensional integer vectors, the units they are measured in, and the
//! motion step shared by both games.

use vstd::prelude::*;

verus! {

/// Length of one logical screen unit.
pub const UNIT: i64 = 1_000_000;

/// Largest magnitude of a coordinate of a position or of an extent.
pub const MAX_COORD: i64 = 2_000_000_000_000_000_000;

/// Longest time, in microseconds, that one step of motion may span.
pub const MAX_ELAPSED: u64 = 1_000_000_000;

/// Largest magnitude of a coordinate from which a body can move for
/// `MAX_ELAPSED` at `MAX_SPEED` and still be at a position.
pub const MAX_START: i64 = 1_000_000_000_000_000_000;

/// Largest magnitude of a component of a velocity, in logical units per second.
pub const MAX_SPEED: i64 = 1_000_000_000;

/// A point or a displacement in the plane, x growing to the right and y upwards.
#[derive(Clone, Copy, Debug, PartialEq, Eq, Structural)]
pub struct Vector {
    pub x: i64,
    pub y: i64,
}

/// Where a coordinate stands after moving at `speed` for `elapsed` microseconds.
pub open spec fn travelled(coordinate: int, speed: int, elapsed: int) -> int {
    coordinate + speed * elapsed
}

/// Whether `value` lies between `-limit` and `limit`.
pub open spec fn within(value: int, limit: int) -> bool {
    -limit <= value <= limit
}

impl Vector {
    /// Both components lie within `limit` of zero.
    pub open spec fn bounded_by(self, limit: int) -> bool {
        within(self.x as int, limit) && within(self.y as int, limit)
    }

    /// The vector can stand for a position on or around the screen.
    pub open spec fn is_position(self) -> bool {
        self.bounded_by(MAX_COORD as int)
    }

    /// The vector can stand for a velocity.
    pub open spec fn is_velocity(self) -> bool {
        self.bounded_by(MAX_SPEED as int)
    }

    /// The position reached from `self` at `velocity` after `elapsed` microseconds.
    pub open spec fn moved_by(self, velocity: Vector, elapsed: u64) -> (int, int) {
        (
            travelled(self.x as int, velocity.x as int, elapsed as int),
            travelled(self.y as int, velocity.y as int, elapsed as int),
        )
    }

    /// The vector is a position from which any step of motion is possible.
    pub open spec fn is_start(self) -> bool {
        self.bounded_by(MAX_START as int)
    }

    /// The position reached from `self`, as a vector; it is meant where
    /// `can_move_by` holds.
    pub open spec fn advanced(self, velocity: Vector, elapsed: u64) -> Vector {
        let (x, y) = self.moved_by(velocity, elapsed);
        Vector { x: x as i64, y: y as i64 }
    }

    /// Whether the position reached from `self` is still a position.
    pub open spec fn can_move_by(self, velocity: Vector, elapsed: u64) -> bool {
        let (x, y) = self.moved_by(velocity, elapsed);
        within(x, MAX_COORD as int) && within(y, MAX_COORD as int)
    }

    pub fn new(x: i64, y: i64) -> (v: Vector)
        ensures
            v.x == x,
            v.y == y,
    {
        Vector { x, y }
    }

    /// Tells whether both components lie within `limit` of zero.
    pub fn is_bounded_by(self, limit: i64) -> (r: bool)
        requires
            0 <= limit,
        ensures
            r == self.bounded_by(limit as int),
    {
        -limit <= self.x && self.x <= limit && -limit <= self.y && self.y <= limit
    }

    /// The origin, which is also the velocity of a body at rest.
    pub fn zero() -> (v: Vector)
        ensures
            v.x == 0,
            v.y == 0,
    {
        Vector { x: 0, y: 0 }
    }
}

/// The product of a speed and an elapsed time fits in 128 bits with room to
/// add a coordinate.
proof fn lemma_travel_fits(coordinate: i64, speed: i64, elapsed: u64)
    ensures
        -0x8000_0000_0000_0000_0000_0000_0000_0000 <= speed * elapsed,
        speed * elapsed <= 0x7fff_ffff_ffff_ffff_0000_0000_0000_0000,
        -0x8000_0000_0000_0000_0000_0000_0000_0000 <= travelled(
            coordinate as int,
            speed as int,
            elapsed as int,
        ) <= 0x7fff_ffff_ffff_ffff_ffff_ffff_ffff_ffff,
{
    let s = speed as int;
    let e = elapsed as int;
    assert(-0x8000_0000_0000_0000 * 0xffff_ffff_ffff_ffff <= s * e
        && s * e <= 0x7fff_ffff_ffff_ffff * 0xffff_ffff_ffff_ffff) by (nonlinear_arith)
        requires
            -0x8000_0000_0000_0000 <= s <= 0x7fff_ffff_ffff_ffff,
            0 <= e <= 0xffff_ffff_ffff_ffff,
    ;
}

/// From a start, a body that is no faster than `MAX_SPEED` reaches a position
/// in any time up to `MAX_ELAPSED`.
pub proof fn lemma_step_stays_in_range(position: Vector, velocity: Vector, elapsed: u64)
    requires
        position.is_start(),
        velocity.is_velocity(),
        elapsed <= MAX_ELAPSED,
    ensures
        position.can_move_by(velocity, elapsed),
{
    let e = elapsed as int;
    let vx = velocity.x as int;
    let vy = velocity.y as int;
    assert(-1_000_000_000_000_000_000 <= vx * e <= 1_000_000_000_000_000_000
        && -1_000_000_000_000_000_000 <= vy * e <= 1_000_000_000_000_000_000)
        by (nonlinear_arith)
        requires
            0 <= e <= 1_000_000_000,
            -1_000_000_000 <= vx <= 1_000_000_000,
            -1_000_000_000 <= vy <= 1_000_000_000,
    ;
}

/// One coordinate after `elapsed` microseconds, or `None` where it would
/// leave the range of positions.
fn travel(coordinate: i64, speed: i64, elapsed: u64) -> (r: Option<i64>)
    ensures
        r.is_some() <==> within(
            travelled(coordinate as int, speed as int, elapsed as int),
            MAX_COORD as int,
        ),
        r.is_some() ==> r.unwrap() == travelled(
            coordinate as int,
            speed as int,
            elapsed as int,
        ),
{
    proof {
        lemma_travel_fits(coordinate, speed, elapsed);
    }
    let wide: i128 = (coordinate as i128) + (speed as i128) * (elapsed as i128);
    if -(MAX_COORD as i128) <= wide && wide <= MAX_COORD as i128 {
        Some(wide as i64)
    } else {
        None
    }
}

impl Vector {
    /// Tells whether `advance` may be called: whether the body stays within
    /// the range of positions.
    pub fn stays_in_range(self, velocity: Vector, elapsed: u64) -> (ok: bool)
        ensures
            ok == self.can_move_by(velocity, elapsed),
    {
        travel(self.x, velocity.x, elapsed).is_some() && travel(
            self.y,
            velocity.y,
            elapsed,
        ).is_some()
    }

    /// Moves a position at `velocity` for `elapsed` microseconds: each
    /// coordinate grows by the speed along it times the elapsed time.
    pub fn advance(self, velocity: Vector, elapsed: u64) -> (r: Vector)
        requires
            self.can_move_by(velocity, elapsed),
        ensures
            (r.x as int, r.y as int) == self.moved_by(velocity, elapsed),
            r == self.advanced(velocity, elapsed),
            r.is_position(),
    {
        let x = travel(self.x, velocity.x, elapsed);
        let y = travel(self.y, velocity.y, elapsed);
        Vector { x: x.unwrap(), y: y.unwrap() }
    }
}

/// The square of the length of the vector `(x, y)`.
pub open spec fn length_squared(x: int, y: int) -> int {
    x * x + y * y
}

/// `result` is the component, along the axis of `component`, of the vector
/// that points the way of `(component, other)` and has length `speed`,
/// rounded towards zero: it has the sign of `component`, and the exact value
/// `speed * component / length` lies between it and the next integer away
/// from zero.
pub open spec fn is_scaled_component(result: int, component: int, other: int, speed: int) -> bool {
    let n = length_squared(component, other);
    let target = speed * speed * (component * component);
    let size = if result < 0 {
        -result
    } else {
        result
    };
    &&& component >= 0 ==> result >= 0
    &&& component <= 0 ==> result <= 0
    &&& size * size * n <= target < (size + 1) * (size + 1) * n
}

/// Only one integer is the scaled component of a vector that has a direction.
pub proof fn lemma_scaled_component_is_unique(
    first: int,
    second: int,
    component: int,
    other: int,
    speed: int,
)
    requires
        component != 0 || other != 0,
        is_scaled_component(first, component, other, speed),
        is_scaled_component(second, component, other, speed),
    ensures
        first == second,
{
    let n = length_squared(component, other);
    let target = speed * speed * (component * component);
    let a = if first < 0 {
        -first
    } else {
        first
    };
    let b = if second < 0 {
        -second
    } else {
        second
    };
    assert(n > 0) by (nonlinear_arith)
        requires
            n == component * component + other * other,
            component != 0 || other != 0,
    ;
    assert(a == b) by (nonlinear_arith)
        requires
            n > 0,
            a >= 0,
            b >= 0,
            a * a * n <= target,
            target < (a + 1) * (a + 1) * n,
            b * b * n <= target,
            target < (b + 1) * (b + 1) * n,
    ;
    if component == 0 {
        assert(target == 0) by (nonlinear_arith)
            requires
                target == speed * speed * (component * component),
                component == 0,
        ;
        assert(a == 0) by (nonlinear_arith)
            requires
                n > 0,
                a >= 0,
                a * a * n <= 0,
        ;
    }
}

/// Below any bound whose square times `n` exceeds `target` lies an integer
/// whose square times `n` is the last not to exceed it.
proof fn lemma_root_below(target: int, n: int, bound: int) -> (root: int)
    requires
        target >= 0,
        n > 0,
        bound >= 0,
        target < (bound + 1) * (bound + 1) * n,
    ensures
        0 <= root <= bound,
        root * root * n <= target < (root + 1) * (root + 1) * n,
    decreases bound,
{
    if bound * bound * n <= target {
        bound
    } else {
        assert(bound != 0) by (nonlinear_arith)
            requires
                !(bound * bound * n <= target),
                target >= 0,
        ;
        lemma_root_below(target, n, bound - 1)
    }
}

/// Every component of a vector that has a direction can be scaled to any
/// length that is not negative, and is then no longer than that length.
proof fn lemma_scaled_component_exists(component: int, other: int, speed: int) -> (r: int)
    requires
        component != 0 || other != 0,
        speed >= 0,
    ensures
        is_scaled_component(r, component, other, speed),
        within(r, speed),
{
    let n = length_squared(component, other);
    let cc = component * component;
    let target = speed * speed * cc;
    assert(n > 0 && cc >= 0 && n >= cc) by (nonlinear_arith)
        requires
            n == component * component + other * other,
            cc == component * component,
            component != 0 || other != 0,
    ;
    assert(0 <= target < (speed + 1) * (speed + 1) * n) by (nonlinear_arith)
        requires
            target == speed * speed * cc,
            0 <= cc <= n,
            n > 0,
            speed >= 0,
    ;
    let root = lemma_root_below(target, n, speed);
    if component == 0 {
        assert(target == 0) by (nonlinear_arith)
            requires
                target == speed * speed * cc,
                cc == component * component,
                component == 0,
        ;
        assert(root == 0) by (nonlinear_arith)
            requires
                root >= 0,
                n > 0,
                root * root * n <= 0,
        ;
    }
    if component < 0 {
        -root
    } else {
        root
    }
}

/// Every vector can be brought to any length that a speed can have.
pub proof fn lemma_scaled_exists(direction: Vector, speed: int)
    requires
        0 <= speed <= MAX_SPEED,
    ensures
        exists|r: Vector| r.is_scaled_from(direction, speed),
{
    if direction.x == 0 && direction.y == 0 {
        assert(direction.is_scaled_from(direction, speed));
    } else {
        let x = lemma_scaled_component_exists(direction.x as int, direction.y as int, speed);
        let y = lemma_scaled_component_exists(direction.y as int, direction.x as int, speed);
        let r = Vector { x: x as i64, y: y as i64 };
        assert(r.is_scaled_from(direction, speed));
    }
}

/// A vector that is `direction` brought to the length `speed` is the only
/// such vector.
pub proof fn lemma_scaled_is_unique(result: Vector, direction: Vector, speed: int)
    requires
        result.is_scaled_from(direction, speed),
    ensures
        direction.scaled(speed) == result,
{
    let chosen = direction.scaled(speed);
    assert(chosen.is_scaled_from(direction, speed));
    if direction.x != 0 || direction.y != 0 {
        lemma_scaled_component_is_unique(
            chosen.x as int,
            result.x as int,
            direction.x as int,
            direction.y as int,
            speed,
        );
        lemma_scaled_component_is_unique(
            chosen.y as int,
            result.y as int,
            direction.y as int,
            direction.x as int,
            speed,
        );
    }
}

/// Bringing a vector that has a direction to the length `speed` gives a
/// vector that is no longer than `speed` and that would be longer if each
/// component lay one further from zero; each component keeps its sign.
pub proof fn lemma_scaled_length(result: Vector, direction: Vector, speed: int)
    requires
        direction.x != 0 || direction.y != 0,
        speed >= 0,
        result.is_scaled_from(direction, speed),
    ensures
        length_squared(result.x as int, result.y as int) <= speed * speed,
        speed * speed < length_squared(
            (if result.x < 0 {
                -result.x
            } else {
                result.x as int
            }) + 1,
            (if result.y < 0 {
                -result.y
            } else {
                result.y as int
            }) + 1,
        ),
        direction.x >= 0 ==> result.x >= 0,
        direction.x <= 0 ==> result.x <= 0,
        direction.y >= 0 ==> result.y >= 0,
        direction.y <= 0 ==> result.y <= 0,
{
    let x = direction.x as int;
    let y = direction.y as int;
    let n = length_squared(x, y);
    let a: int = if result.x < 0 {
        -result.x
    } else {
        result.x as int
    };
    let b: int = if result.y < 0 {
        -result.y
    } else {
        result.y as int
    };
    let ss = speed * speed;
    let xx = x * x;
    let yy = y * y;
    assert(n == xx + yy);
    assert(length_squared(y, x) == n);
    assert(xx >= 0 && yy >= 0 && n > 0) by (nonlinear_arith)
        requires
            xx == x * x,
            yy == y * y,
            n == xx + yy,
            x != 0 || y != 0,
    ;
    assert((a * a + b * b) * n <= ss * n) by (nonlinear_arith)
        requires
            a * a * n <= ss * xx,
            b * b * n <= ss * yy,
            n == xx + yy,
    ;
    assert(a * a + b * b <= ss) by (nonlinear_arith)
        requires
            (a * a + b * b) * n <= ss * n,
            n > 0,
    ;
    assert(ss * n < ((a + 1) * (a + 1) + (b + 1) * (b + 1)) * n) by (nonlinear_arith)
        requires
            ss * xx < (a + 1) * (a + 1) * n,
            ss * yy < (b + 1) * (b + 1) * n,
            n == xx + yy,
    ;
    assert(ss < (a + 1) * (a + 1) + (b + 1) * (b + 1)) by (nonlinear_arith)
        requires
            ss * n < ((a + 1) * (a + 1) + (b + 1) * (b + 1)) * n,
            n > 0,
    ;
    assert(result.x * result.x == a * a && result.y * result.y == b * b) by (nonlinear_arith)
        requires
            a == result.x || a == -result.x,
            b == result.y || b == -result.y,
    ;
}

/// The largest integer whose square is at most `value`.
fn integer_root(value: u128) -> (root: u64)
    requires
        value < 0x1000_0000_0000_0000_0000_0000_0000_0000,
    ensures
        root * root <= value < (root + 1) * (root + 1),
{
    let mut low: u64 = 0;
    let mut high: u64 = 0x4000_0000_0000_0000;
    assert(0x4000_0000_0000_0000u64 * 0x4000_0000_0000_0000u64 > value) by (nonlinear_arith)
        requires
            value < 0x1000_0000_0000_0000_0000_0000_0000_0000,
    ;
    while high - low > 1
        invariant
            low < high <= 0x4000_0000_0000_0000,
            low * low <= value < high * high,
        decreases high - low,
    {
        let middle: u64 = low + (high - low) / 2;
        assert(middle * middle <= 0x4000_0000_0000_0000u64 * 0x4000_0000_0000_0000u64)
            by (nonlinear_arith)
            requires
                0 <= middle <= 0x4000_0000_0000_0000,
        ;
        let square: u128 = (middle as u128) * (middle as u128);
        if square <= value {
            low = middle;
        } else {
            high = middle;
        }
    }
    low
}

fn unsigned(value: i64) -> (r: u64)
    requires
        value > i64::MIN,
    ensures
        r == if value < 0 {
            -value
        } else {
            value as int
        },
{
    if value < 0 {
        (-value) as u64
    } else {
        value as u64
    }
}

/// One component of a vector brought to the length `speed`.
fn scaled_component(component: i64, other: i64, speed: i64) -> (r: i64)
    requires
        within(component as int, MAX_SPEED as int),
        within(other as int, MAX_SPEED as int),
        0 <= speed <= MAX_SPEED,
        component != 0 || other != 0,
    ensures
        is_scaled_component(r as int, component as int, other as int, speed as int),
        within(r as int, speed as int),
{
    let c: u128 = unsigned(component) as u128;
    let o: u128 = unsigned(other) as u128;
    let s: u128 = speed as u128;
    assert(c * c <= 1_000_000_000_000_000_000 && o * o <= 1_000_000_000_000_000_000 && s * s
        <= 1_000_000_000_000_000_000 && c * c + o * o > 0) by (nonlinear_arith)
        requires
            0 <= c <= 1_000_000_000,
            0 <= o <= 1_000_000_000,
            0 <= s <= 1_000_000_000,
            c != 0 || o != 0,
    ;
    let n: u128 = c * c + o * o;
    let cc: u128 = c * c;
    let ss: u128 = s * s;
    assert(ss * cc <= 1_000_000_000_000_000_000_000_000_000_000_000_000) by (nonlinear_arith)
        requires
            0 <= ss <= 1_000_000_000_000_000_000,
            0 <= cc <= 1_000_000_000_000_000_000,
    ;
    let target: u128 = ss * cc;
    let quotient: u128 = target / n;
    assert(quotient <= target) by (nonlinear_arith)
        requires
            quotient == target / n,
            n > 0,
    ;
    let root: u64 = integer_root(quotient);
    proof {
        let k = root as int;
        let q = quotient as int;
        let t = target as int;
        let m = n as int;
        assert(q * m <= t < (q + 1) * m) by (nonlinear_arith)
            requires
                m > 0,
                t >= 0,
                q == t / m,
        ;
        assert(k * k * m <= t && t < (k + 1) * (k + 1) * m) by (nonlinear_arith)
            requires
                m > 0,
                k * k <= q,
                q + 1 <= (k + 1) * (k + 1),
                q * m <= t,
                t < (q + 1) * m,
        ;
        assert(k <= s) by (nonlinear_arith)
            requires
                k >= 0,
                s >= 0,
                m > 0,
                k * k * m <= t,
                t == (s * s) * (c * c),
                m == c * c + o * o,
                o * o >= 0,
                c * c >= 0,
        ;
        assert(c == 0 ==> k == 0) by (nonlinear_arith)
            requires
                k >= 0,
                m > 0,
                k * k * m <= t,
                t == (s * s) * (c * c),
        ;
        assert(t == speed * speed * (component * component)) by (nonlinear_arith)
            requires
                t == (s * s) * (c * c),
                s == speed,
                c == component || c == -component,
        ;
        assert(m == length_squared(component as int, other as int)) by (nonlinear_arith)
            requires
                m == c * c + o * o,
                c == component || c == -component,
                o == other || o == -other,
        ;
    }
    if component < 0 {
        -(root as i64)
    } else {
        root as i64
    }
}

impl Vector {
    /// The length of the vector is exactly `speed`.
    pub open spec fn has_length(self, speed: int) -> bool {
        length_squared(self.x as int, self.y as int) == speed * speed
    }

    /// `self` is `direction` brought to the length `speed`, each component
    /// rounded towards zero; a vector without a direction stays as it is.
    pub open spec fn is_scaled_from(self, direction: Vector, speed: int) -> bool {
        if direction.x == 0 && direction.y == 0 {
            self == direction
        } else {
            &&& is_scaled_component(self.x as int, direction.x as int, direction.y as int, speed)
            &&& is_scaled_component(self.y as int, direction.y as int, direction.x as int, speed)
        }
    }

    /// The vector brought to the length `speed`: the one vector that
    /// `is_scaled_from` it.
    pub open spec fn scaled(self, speed: int) -> Vector {
        choose|r: Vector| r.is_scaled_from(self, speed)
    }

    /// Tells whether the vector has the length `speed`.
    pub fn is_of_length(self, speed: i64) -> (r: bool)
        requires
            self.is_velocity(),
            0 <= speed <= MAX_SPEED,
        ensures
            r == self.has_length(speed as int),
    {
        let x: i128 = self.x as i128;
        let y: i128 = self.y as i128;
        let s: i128 = speed as i128;
        assert(0 <= x * x <= 1_000_000_000_000_000_000 && 0 <= y * y <= 1_000_000_000_000_000_000
            && 0 <= s * s <= 1_000_000_000_000_000_000) by (nonlinear_arith)
            requires
                -1_000_000_000 <= x <= 1_000_000_000,
                -1_000_000_000 <= y <= 1_000_000_000,
                0 <= s <= 1_000_000_000,
        ;
        x * x + y * y == s * s
    }

    /// Brings the vector to the length `speed` without turning it. Each
    /// component is rounded towards zero, so the result is never longer than
    /// `speed`. The zero vector points nowhere and is returned as it is.
    pub fn scaled_to(self, speed: i64) -> (r: Vector)
        requires
            self.is_velocity(),
            0 <= speed <= MAX_SPEED,
        ensures
            r.is_scaled_from(self, speed as int),
            r == self.scaled(speed as int),
            r.bounded_by(speed as int),
    {
        let r = if self.x == 0 && self.y == 0 {
            self
        } else {
            Vector {
                x: scaled_component(self.x, self.y, speed),
                y: scaled_component(self.y, self.x, speed),
            }
        };
        proof {
            lemma_scaled_is_unique(r, self, speed as int);
        }
        r
    }
}

} // verus!
