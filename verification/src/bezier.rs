//! Bezier curves over any kind of point.
//!
//! The arithmetic of points and of the numbers that scale them belongs to
//! the kind of point. What is fixed here is the shape of the sums: which
//! control points enter them, with which binomial coefficients, and at
//! which parameters a curve is sampled.

use vstd::prelude::*;

verus! {

/// The number of ways to choose `k` of `n` things.
pub open spec fn binomial(n: nat, k: nat) -> nat
    decreases n,
{
    if k == 0 {
        1
    } else if n == 0 {
        0
    } else {
        binomial((n - 1) as nat, (k - 1) as nat) + binomial((n - 1) as nat, k)
    }
}

/// There is no way to choose more than there is.
pub proof fn lemma_binomial_beyond(n: nat, k: nat)
    requires
        k > n,
    ensures
        binomial(n, k) == 0,
    decreases n,
{
    if n > 0 {
        lemma_binomial_beyond((n - 1) as nat, (k - 1) as nat);
        lemma_binomial_beyond((n - 1) as nat, k);
    }
}

/// Choosing one more: `(k + 1) * C(n, k + 1) == (n - k) * C(n, k)`.
pub proof fn lemma_binomial_step(n: nat, k: nat)
    requires
        k <= n,
    ensures
        (k + 1) * binomial(n, k + 1) == (n - k) * binomial(n, k),
    decreases n,
{
    if n == 0 {
        assert(binomial(0, 1) == 0);
    } else if k == 0 {
        let m = (n - 1) as nat;
        lemma_binomial_step(m, 0);
        assert(binomial(n, 1) == binomial(m, 0) + binomial(m, 1));
        assert(binomial(m, 0) == 1);
        assert(binomial(n, 0) == 1);
        assert(binomial(m, 1) == m) by (nonlinear_arith)
            requires
                (0 + 1) * binomial(m, 1) == (m - 0) * binomial(m, 0),
                binomial(m, 0) == 1,
        ;
        assert((0 + 1) * binomial(n, 1) == (n - 0) * binomial(n, 0)) by (nonlinear_arith)
            requires
                binomial(n, 1) == n,
                binomial(n, 0) == 1,
        ;
    } else if k == n {
        lemma_binomial_beyond(n, k + 1);
        assert((k + 1) * binomial(n, k + 1) == 0) by (nonlinear_arith)
            requires
                binomial(n, k + 1) == 0,
        ;
        assert((n - k) * binomial(n, k) == 0) by (nonlinear_arith)
            requires
                n - k == 0,
        ;
    } else {
        let m = (n - 1) as nat;
        lemma_binomial_step(m, k);
        lemma_binomial_step(m, (k - 1) as nat);
        let a = binomial(m, (k - 1) as nat) as int;
        let b = binomial(m, k) as int;
        let c = binomial(m, k + 1) as int;
        assert((k + 1) * c == (m - k) * b);
        assert(k * b == (m - (k - 1)) * a);
        assert(binomial(n, k + 1) == b + c);
        assert(binomial(n, k) == a + b);
        assert((k + 1) * (b + c) == (n - k) * (a + b)) by (nonlinear_arith)
            requires
                (k + 1) * c == (m - k) * b,
                k * b == (m - (k - 1)) * a,
                m == n - 1,
        ;
    }
}

/// Choosing `k` of `n` is leaving `n - k` of them.
pub proof fn lemma_binomial_symmetric(n: nat, k: nat)
    requires
        k <= n,
    ensures
        binomial(n, k) == binomial(n, (n - k) as nat),
    decreases n,
{
    if n == 0 {
    } else if k == 0 {
        lemma_binomial_all(n);
    } else if k == n {
        lemma_binomial_all(n);
    } else {
        let m = (n - 1) as nat;
        lemma_binomial_symmetric(m, (k - 1) as nat);
        lemma_binomial_symmetric(m, k);
        assert((m - (k - 1)) as nat == (n - k) as nat);
        assert((m - k) as nat == ((n - k) - 1) as nat);
    }
}

/// There is one way to choose all.
pub proof fn lemma_binomial_all(n: nat)
    ensures
        binomial(n, n) == 1,
    decreases n,
{
    if n > 0 {
        lemma_binomial_all((n - 1) as nat);
        lemma_binomial_beyond((n - 1) as nat, n);
    }
}

/// Two to the power `n`.
pub open spec fn power_of_two(n: nat) -> nat
    decreases n,
{
    if n == 0 {
        1
    } else {
        2 * power_of_two((n - 1) as nat)
    }
}

/// Of `n` things there are at most two to the `n` choices.
pub proof fn lemma_binomial_bound(n: nat, k: nat)
    ensures
        binomial(n, k) <= power_of_two(n),
    decreases n,
{
    if n > 0 && k > 0 {
        lemma_binomial_bound((n - 1) as nat, (k - 1) as nat);
        lemma_binomial_bound((n - 1) as nat, k);
    } else if k == 0 {
        lemma_power_of_two_positive(n);
    }
}

pub proof fn lemma_power_of_two_positive(n: nat)
    ensures
        power_of_two(n) >= 1,
    decreases n,
{
    if n > 0 {
        lemma_power_of_two_positive((n - 1) as nat);
    }
}

pub proof fn lemma_power_of_two_grows(m: nat, n: nat)
    requires
        m <= n,
    ensures
        power_of_two(m) <= power_of_two(n),
    decreases n,
{
    if m < n {
        lemma_power_of_two_grows(m, (n - 1) as nat);
    }
}

/// A degree up to which curves can be evaluated on every machine: see
/// `lemma_small_degrees_fit`. A machine with a wider word evaluates curves
/// of higher degree; `is_degree_evaluable` tells.
pub const MAX_DEGREE: usize = 28;

/// Whether every product that `binomial_coeff(n, k)` forms fits in the
/// machine's word.
pub open spec fn binomial_fits(n: nat, k: nat) -> bool {
    forall|j: nat|
        1 <= j && j <= k && j <= n - k ==> j * #[trigger] binomial(n, j) <= usize::MAX
}

/// Whether a curve of degree `degree` can be evaluated: for every place of
/// the degree, the products that its binomial coefficient is computed
/// from fit in the machine's word.
pub open spec fn degree_fits(degree: nat) -> bool {
    forall|i: nat| i <= degree ==> #[trigger] binomial_fits(degree, i)
}

/// Up to `MAX_DEGREE`, curves can be evaluated on every machine.
pub proof fn lemma_small_degrees_fit(degree: nat)
    requires
        degree <= MAX_DEGREE,
    ensures
        degree_fits(degree),
{
    assert forall|i: nat| i <= degree implies #[trigger] binomial_fits(degree, i) by {
        lemma_small_binomials_fit(degree, i);
    }
}

/// Whether a curve of degree `degree` can be evaluated on this machine.
pub fn is_degree_evaluable(degree: usize) -> (fits: bool)
    ensures
        fits == degree_fits(degree as nat),
{
    let half: usize = degree / 2;
    let mut val: usize = 1;
    let mut j: usize = 1;
    while j <= half
        invariant
            1 <= j <= half + 1,
            half == degree / 2,
            val == binomial(degree as nat, (j - 1) as nat),
            forall|k: nat| 1 <= k < j ==> k * #[trigger] binomial(degree as nat, k) <= usize::MAX,
        decreases half + 1 - j,
    {
        proof {
            lemma_binomial_step(degree as nat, (j - 1) as nat);
            assert(val * (degree - (j - 1)) == j * binomial(degree as nat, j as nat))
                by (nonlinear_arith)
                requires
                    j * binomial(degree as nat, j as nat) == (degree - (j - 1)) * binomial(
                        degree as nat,
                        (j - 1) as nat,
                    ),
                    val == binomial(degree as nat, (j - 1) as nat),
            ;
        }
        match val.checked_mul(degree - (j - 1)) {
            None => {
                proof {
                    let place = j as nat;
                    assert(place * binomial(degree as nat, place) > usize::MAX);
                    assert(1 <= place && place <= place && place <= degree - place);
                    assert(!binomial_fits(degree as nat, place));
                }
                return false;
            },
            Some(product) => {
                proof {
                    let next = binomial(degree as nat, j as nat);
                    assert((j * next) as int / (j as int) == next) by (nonlinear_arith)
                        requires
                            j > 0,
                    ;
                }
                val = product / j;
            },
        }
        j += 1;
    }
    proof {
        assert forall|i: nat| i <= degree implies #[trigger] binomial_fits(degree as nat, i) by {
            assert forall|k: nat| 1 <= k && k <= i && k <= degree - i implies k * #[trigger] binomial(
                degree as nat,
                k,
            ) <= usize::MAX by {
                assert(k <= half);
            }
        }
    }
    true
}

/// Up to `MAX_DEGREE`, the products fit.
pub proof fn lemma_small_binomials_fit(n: nat, k: nat)
    requires
        n <= MAX_DEGREE,
        k <= n,
    ensures
        binomial_fits(n, k),
{
    assert forall|j: nat| 1 <= j && j <= k && j <= n - k implies j * #[trigger] binomial(n, j)
        <= usize::MAX by {
        lemma_binomial_bound(n, j);
        lemma_power_of_two_grows(n, 28);
        assert(power_of_two(28) == 268435456) by {
            reveal_with_fuel(power_of_two, 29);
        }
        assert(j <= 14);
        assert(j * binomial(n, j) <= 14 * 268435456) by (nonlinear_arith)
            requires
                j <= 14,
                binomial(n, j) <= 268435456,
        ;
    }
}

/// The binomial coefficient of `n` choose `k`.
pub fn binomial_coeff(n: usize, k: usize) -> (coefficient: usize)
    requires
        k <= n,
        binomial_fits(n as nat, k as nat),
    ensures
        coefficient == binomial(n as nat, k as nat),
{
    let k_small: usize = if k < n - k {
        k
    } else {
        n - k
    };
    proof {
        lemma_binomial_symmetric(n as nat, k as nat);
    }
    let mut val: usize = 1;
    let mut i: usize = 0;
    while i < k_small
        invariant
            i <= k_small,
            k_small <= k,
            k_small <= n - k,
            k <= n,
            val == binomial(n as nat, i as nat),
            binomial_fits(n as nat, k as nat),
        decreases k_small - i,
    {
        proof {
            lemma_binomial_step(n as nat, i as nat);
            let j = (i + 1) as nat;
            let next = binomial(n as nat, j);
            assert(1 <= j && j <= k && j <= n - k);
            assert(j * next <= usize::MAX);
            assert(val * (n - i) == j * next) by (nonlinear_arith)
                requires
                    j * next == (n - i) * binomial(n as nat, i as nat),
                    val == binomial(n as nat, i as nat),
            ;
            assert((j * next) as int / (j as int) == next) by (nonlinear_arith)
                requires
                    j > 0,
            ;
        }
        val = val * (n - i) / (i + 1);
        i += 1;
    }
    val
}

/// A point in a space of any dimension, with the arithmetic that a curve
/// needs of it.
///
/// `Scalar` is the kind of number that scales a point and along which a
/// curve is traced. How points and scalars compute is for the point to
/// say. Each operation comes with a function, `spec_` and its name, that
/// names its result, so that a curve can say which operations it is made
/// of; contracts apply these functions, code never calls them.
pub trait Point: Sized + Copy {
    type Scalar: Copy;

    /// The origin.
    spec fn spec_zero() -> Self;

    spec fn spec_plus(self, other: Self) -> Self;

    spec fn spec_minus(self, other: Self) -> Self;

    spec fn spec_scaled(self, factor: Self::Scalar) -> Self;

    /// The scalar for a whole number.
    spec fn spec_scalar(value: usize) -> Self::Scalar;

    /// The scalar for `step` of `subdivisions` equal steps.
    spec fn spec_ratio(step: i32, subdivisions: i32) -> Self::Scalar;

    /// The Bernstein basis polynomial `i` of degree `n` at `t`, without
    /// its binomial coefficient: `(1 - t)^(n - i) * t^i`.
    spec fn spec_bernstein_basis(n: usize, i: usize, t: Self::Scalar) -> Self::Scalar;

    fn zero() -> (point: Self)
        ensures
            point == Self::spec_zero(),
    ;

    fn plus(self, other: Self) -> (sum: Self)
        ensures
            sum == self.spec_plus(other),
    ;

    fn minus(self, other: Self) -> (difference: Self)
        ensures
            difference == self.spec_minus(other),
    ;

    fn scaled(self, factor: Self::Scalar) -> (product: Self)
        ensures
            product == self.spec_scaled(factor),
    ;

    fn scalar(value: usize) -> (scalar: Self::Scalar)
        ensures
            scalar == Self::spec_scalar(value),
    ;

    fn ratio(step: i32, subdivisions: i32) -> (t: Self::Scalar)
        ensures
            t == Self::spec_ratio(step, subdivisions),
    ;

    fn bernstein_basis(n: usize, i: usize, t: Self::Scalar) -> (basis: Self::Scalar)
        requires
            i <= n,
        ensures
            basis == Self::spec_bernstein_basis(n, i, t),
    ;
}

/// `point` weighted for the place `i` of a Bezier sum of degree `degree`
/// at `t`: scaled by the binomial coefficient, then by the basis
/// polynomial.
pub open spec fn weighted<P: Point>(point: P, degree: nat, i: nat, t: P::Scalar) -> P {
    point.spec_scaled(P::spec_scalar(binomial(degree, i) as usize)).spec_scaled(
        P::spec_bernstein_basis(degree as usize, i as usize, t),
    )
}

/// Control point `i` of the first derivative of the curve with the
/// control points `p`: the step from point `i` to the next, scaled by the
/// degree of the curve.
pub open spec fn velocity_point<P: Point>(p: Seq<P>, i: int) -> P {
    p[i + 1].spec_minus(p[i]).spec_scaled(P::spec_scalar((p.len() - 1) as usize))
}

/// Control point `i` of the second derivative: the step from control
/// point `i` of the first derivative to the next, scaled by the degree of
/// the first derivative.
pub open spec fn acceleration_point<P: Point>(p: Seq<P>, i: int) -> P {
    velocity_point(p, i + 1).spec_minus(velocity_point(p, i)).spec_scaled(
        P::spec_scalar((p.len() - 2) as usize),
    )
}

/// The sum of the first `count` weighted control points of the curve.
pub open spec fn position_sum<P: Point>(p: Seq<P>, t: P::Scalar, count: nat) -> P
    decreases count,
{
    if count == 0 {
        P::spec_zero()
    } else {
        position_sum(p, t, (count - 1) as nat).spec_plus(
            weighted(p[count - 1], (p.len() - 1) as nat, (count - 1) as nat, t),
        )
    }
}

/// The sum of the first `count` weighted control points of the first
/// derivative.
pub open spec fn velocity_sum<P: Point>(p: Seq<P>, t: P::Scalar, count: nat) -> P
    decreases count,
{
    if count == 0 {
        P::spec_zero()
    } else {
        velocity_sum(p, t, (count - 1) as nat).spec_plus(
            weighted(velocity_point(p, count - 1), (p.len() - 2) as nat, (count - 1) as nat, t),
        )
    }
}

/// The sum of the first `count` weighted control points of the second
/// derivative.
pub open spec fn acceleration_sum<P: Point>(p: Seq<P>, t: P::Scalar, count: nat) -> P
    decreases count,
{
    if count == 0 {
        P::spec_zero()
    } else {
        acceleration_sum(p, t, (count - 1) as nat).spec_plus(
            weighted(acceleration_point(p, count - 1), (p.len() - 3) as nat, (count - 1) as nat, t),
        )
    }
}

/// The curve at `t`: the sum of all its weighted control points, added
/// up from the first, starting from the origin.
pub open spec fn spec_position<P: Point>(p: Seq<P>, t: P::Scalar) -> P {
    position_sum(p, t, p.len())
}

/// The first derivative of the curve at `t`: a curve of one degree less;
/// the origin for a curve of one point.
pub open spec fn spec_velocity<P: Point>(p: Seq<P>, t: P::Scalar) -> P {
    if p.len() <= 1 {
        P::spec_zero()
    } else {
        velocity_sum(p, t, (p.len() - 1) as nat)
    }
}

/// The second derivative of the curve at `t`: a curve of two degrees
/// less; the origin for a curve of one or two points.
pub open spec fn spec_acceleration<P: Point>(p: Seq<P>, t: P::Scalar) -> P {
    if p.len() <= 2 {
        P::spec_zero()
    } else {
        acceleration_sum(p, t, (p.len() - 2) as nat)
    }
}

/// `point` weighted for the place `i` of a Bezier sum of degree `degree`.
fn weigh<P: Point>(point: P, degree: usize, i: usize, t: P::Scalar) -> (product: P)
    requires
        i <= degree,
        degree_fits(degree as nat),
    ensures
        product == weighted(point, degree as nat, i as nat, t),
{
    assert(binomial_fits(degree as nat, i as nat));
    point.scaled(P::scalar(binomial_coeff(degree, i))).scaled(P::bernstein_basis(degree, i, t))
}

/// Evaluates the Bezier curve of degree `N - 1` at `t`. The curve must
/// have a control point, and its degree must be one that the machine
/// evaluates.
pub fn position<P: Point, const N: usize>(control_points: [P; N], t: P::Scalar) -> (point: P)
    requires
        1 <= N,
        degree_fits((N - 1) as nat),
    ensures
        point == spec_position(control_points@, t),
{
    let degree: usize = N - 1;
    let mut sum: P = P::zero();
    let mut i: usize = 0;
    while i < N
        invariant
            i <= N,
            1 <= N,
            degree_fits((N - 1) as nat),
            degree == N - 1,
            control_points@.len() == N,
            sum == position_sum(control_points@, t, i as nat),
        decreases N - i,
    {
        sum = sum.plus(weigh(control_points[i], degree, i, t));
        i += 1;
    }
    sum
}

/// Evaluates the first derivative of the Bezier curve of degree `N - 1`
/// at `t`. The degree of the derivative, `N - 2`, must be one that the
/// machine evaluates.
pub fn velocity<P: Point, const N: usize>(control_points: [P; N], t: P::Scalar) -> (point: P)
    requires
        N >= 2 ==> degree_fits((N - 2) as nat),
    ensures
        point == spec_velocity(control_points@, t),
{
    if N <= 1 {
        return P::zero();
    }
    let degree: usize = N - 1;
    let degree_vel: usize = N - 2;
    let mut sum: P = P::zero();
    let mut i: usize = 0;
    while i <= degree_vel
        invariant
            i <= degree_vel + 1,
            2 <= N,
            degree_fits((N - 2) as nat),
            degree == N - 1,
            degree_vel == N - 2,
            control_points@.len() == N,
            sum == velocity_sum(control_points@, t, i as nat),
        decreases degree_vel + 1 - i,
    {
        let p = control_points[i + 1].minus(control_points[i]).scaled(P::scalar(degree));
        sum = sum.plus(weigh(p, degree_vel, i, t));
        i += 1;
    }
    sum
}

/// Evaluates the second derivative of the Bezier curve of degree `N - 1`
/// at `t`. The degree of the derivative, `N - 3`, must be one that the
/// machine evaluates.
pub fn acceleration<P: Point, const N: usize>(control_points: [P; N], t: P::Scalar) -> (point: P)
    requires
        N >= 3 ==> degree_fits((N - 3) as nat),
    ensures
        point == spec_acceleration(control_points@, t),
{
    if N <= 2 {
        return P::zero();
    }
    let degree: usize = N - 1;
    let degree_vel: usize = N - 2;
    let degree_accel: usize = N - 3;
    let mut sum: P = P::zero();
    let mut i: usize = 0;
    while i < degree_vel
        invariant
            i <= degree_vel,
            3 <= N,
            degree_fits((N - 3) as nat),
            degree == N - 1,
            degree_vel == N - 2,
            degree_accel == N - 3,
            control_points@.len() == N,
            sum == acceleration_sum(control_points@, t, i as nat),
        decreases degree_vel - i,
    {
        let lower = control_points[i + 1].minus(control_points[i]).scaled(P::scalar(degree));
        let upper = control_points[i + 2].minus(control_points[i + 1]).scaled(P::scalar(degree));
        let p = upper.minus(lower).scaled(P::scalar(degree_vel));
        sum = sum.plus(weigh(p, degree_accel, i, t));
        i += 1;
    }
    sum
}

/// Number of samples for `subdivisions` subdivisions: one more than
/// there are subdivisions; none for a negative number of them.
pub open spec fn spec_sample_count(subdivisions: i32) -> nat {
    if subdivisions < 0 {
        0
    } else {
        (subdivisions + 1) as nat
    }
}

/// The values of `value` at the parameters `0 / subdivisions`,
/// `1 / subdivisions`, up to `subdivisions / subdivisions`.
pub open spec fn spec_samples<P: Point>(subdivisions: i32, value: spec_fn(P::Scalar) -> P) -> Seq<
    P,
> {
    Seq::new(
        spec_sample_count(subdivisions),
        |i: int| value(P::spec_ratio(i as i32, subdivisions)),
    )
}

/// A Bezier curve with `N` control points, of degree `N - 1`.
#[derive(Clone, Copy, Debug, PartialEq)]
pub struct Bezier<P: Point, const N: usize>(pub [P; N]);

impl<P: Point, const N: usize> Default for Bezier<P, N> {
    /// The curve that stays at the origin.
    fn default() -> (curve: Self)
        ensures
            forall|i: int| 0 <= i < N ==> curve.0@[i] == P::spec_zero(),
    {
        Bezier([P::zero(); N])
    }
}

impl<P: Point, const N: usize> Bezier<P, N> {
    /// The curve with these control points.
    pub fn new(control_points: [P; N]) -> (curve: Self)
        ensures
            curve.0 == control_points,
    {
        Bezier(control_points)
    }

    /// The point of the curve at `t`.
    pub fn position(&self, t: P::Scalar) -> (point: P)
        requires
            1 <= N,
            degree_fits((N - 1) as nat),
        ensures
            point == spec_position(self.0@, t),
    {
        position(self.0, t)
    }

    /// The first derivative of the curve at `t`.
    pub fn velocity(&self, t: P::Scalar) -> (point: P)
        requires
            N >= 2 ==> degree_fits((N - 2) as nat),
        ensures
            point == spec_velocity(self.0@, t),
    {
        velocity(self.0, t)
    }

    /// The second derivative of the curve at `t`.
    pub fn acceleration(&self, t: P::Scalar) -> (point: P)
        requires
            N >= 3 ==> degree_fits((N - 3) as nat),
        ensures
            point == spec_acceleration(self.0@, t),
    {
        acceleration(self.0, t)
    }

    /// Samples the curve with `sample_function` at `subdivisions + 1`
    /// parameters, evenly spaced from the start of the curve to its end.
    pub fn sample<F: Fn(&Self, P::Scalar) -> P>(&self, subdivisions: i32, sample_function: F) -> (points:
        Vec<P>)
        requires
            forall|t: P::Scalar| call_requires(sample_function, (self, t)),
        ensures
            points@.len() == spec_sample_count(subdivisions),
            forall|i: int|
                0 <= i < points@.len() ==> call_ensures(
                    sample_function,
                    (self, P::spec_ratio(i as i32, subdivisions)),
                    #[trigger] points@[i],
                ),
    {
        let mut points: Vec<P> = Vec::new();
        if subdivisions < 0 {
            return points;
        }
        let mut i: i32 = 0;
        loop
            invariant_except_break
                0 <= i <= subdivisions,
                forall|t: P::Scalar| call_requires(sample_function, (self, t)),
                points@.len() == i,
                forall|j: int|
                    0 <= j < points@.len() ==> call_ensures(
                        sample_function,
                        (self, P::spec_ratio(j as i32, subdivisions)),
                        #[trigger] points@[j],
                    ),
            ensures
                points@.len() == subdivisions + 1,
                forall|j: int|
                    0 <= j < points@.len() ==> call_ensures(
                        sample_function,
                        (self, P::spec_ratio(j as i32, subdivisions)),
                        #[trigger] points@[j],
                    ),
            decreases subdivisions - i,
        {
            let t = P::ratio(i, subdivisions);
            let point = sample_function(self, t);
            points.push(point);
            if i == subdivisions {
                break;
            }
            i += 1;
        }
        points
    }

    /// The points of the curve at `subdivisions + 1` evenly spaced
    /// parameters.
    pub fn to_positions(&self, subdivisions: i32) -> (points: Vec<P>)
        requires
            1 <= N,
            degree_fits((N - 1) as nat),
        ensures
            points@ == spec_samples(subdivisions, |t: P::Scalar| spec_position(self.0@, t)),
    {
        let points = self.sample(subdivisions, Self::position);
        assert(points@ =~= spec_samples(subdivisions, |t: P::Scalar| spec_position(self.0@, t)));
        points
    }

    /// The first derivatives of the curve at `subdivisions + 1` evenly
    /// spaced parameters.
    pub fn to_velocities(&self, subdivisions: i32) -> (points: Vec<P>)
        requires
            N >= 2 ==> degree_fits((N - 2) as nat),
        ensures
            points@ == spec_samples(subdivisions, |t: P::Scalar| spec_velocity(self.0@, t)),
    {
        let points = self.sample(subdivisions, Self::velocity);
        assert(points@ =~= spec_samples(subdivisions, |t: P::Scalar| spec_velocity(self.0@, t)));
        points
    }

    /// The second derivatives of the curve at `subdivisions + 1` evenly
    /// spaced parameters.
    pub fn to_accelerations(&self, subdivisions: i32) -> (points: Vec<P>)
        requires
            N >= 3 ==> degree_fits((N - 3) as nat),
        ensures
            points@ == spec_samples(subdivisions, |t: P::Scalar| spec_acceleration(self.0@, t)),
    {
        let points = self.sample(subdivisions, Self::acceleration);
        assert(points@ =~= spec_samples(subdivisions, |t: P::Scalar| spec_acceleration(self.0@, t)));
        points
    }
}

} // verus!
