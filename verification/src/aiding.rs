//! What an estimator lets in: gates on measurements, the first position fix, and the
//! shape that its covariance has then.
//!
//! The caller computes norms, innovations and variances; here it is decided whether a
//! measurement counts. A covariance is a list of its entries, row by row.
use vstd::prelude::*;
use crate::messages::Vec3;
use crate::number::Real;

verus! {

/// How many entries of the inertial navigation's state are position and velocity.
pub const MOTION_DIM: usize = 6;

/// How many entries of the inertial navigation's state there are: position, velocity,
/// attitude, accelerometer bias, gyro bias.
pub const INS_DIM: usize = 15;

// ---- gates ------------------------------------------------------------------

/// Whether what the accelerometer measures can be taken for gravity: it measures
/// something, and `deviation`, how far that is from gravity as a share of it, is below
/// its bound.
pub open spec fn is_gravity(norm: Real, deviation: Real, gate: Real) -> bool {
    Real { bits: 0x3eb0_c6f7_a0b5_ed8d }.less(norm) && deviation.less(gate)
}

/// Whether what the accelerometer measures can be taken for gravity.
pub fn accel_counts(norm: Real, deviation: Real, gate: Real) -> (r: bool)
    ensures
        r == is_gravity(norm, deviation, gate),
{
    Real::from_bits(0x3eb0_c6f7_a0b5_ed8d).lt(norm) && deviation.lt(gate)
}

/// Whether the attitude filter takes in a magnetic field of this strength: it must have
/// a direction, so it must be stronger than 1e-9.
pub fn field_counts(norm: Real) -> (r: bool)
    ensures
        r == (Real { bits: 0x3e11_2e0b_e826_d695 }).less(norm),
{
    Real::from_bits(0x3e11_2e0b_e826_d695).lt(norm)
}

/// Whether inertial navigation leaves out a magnetic field of this strength: one weaker
/// than 1e-9.
pub fn field_fades(norm: Real) -> (r: bool)
    ensures
        r == norm.less((Real { bits: 0x3e11_2e0b_e826_d695 })),
{
    norm.lt(Real::from_bits(0x3e11_2e0b_e826_d695))
}

/// Whether a measurement is let in. `nis` is the square of its innovation, in units of
/// what was expected; there is none where the expectation cannot be inverted.
pub open spec fn admitted(nis: Option<Real>, chi2: Real) -> bool {
    match nis {
        Some(x) => !chi2.less(x),
        None => false,
    }
}

/// Whether a measurement of several numbers is let in.
pub fn passes_gate(nis: Option<Real>, chi2: Real) -> (r: bool)
    ensures
        r == admitted(nis, chi2),
{
    match nis {
        Some(x) => !chi2.lt(x),
        None => false,
    }
}

/// Whether a measurement of one number is let in; `variance` is that of its innovation.
pub fn passes_scalar_gate(variance: Real, nis: Real, chi2: Real) -> (r: bool)
    ensures
        r == admitted(
            if variance.at_most(Real::zero_value()) {
                None
            } else {
                Some(nis)
            },
            chi2,
        ),
{
    if variance.le(Real::zero()) {
        false
    } else {
        !chi2.lt(nis)
    }
}

/// An outlier is turned away however far off it is: what a gate turns away, it turns
/// away from anything further off, and what it lets in, a wider gate lets in too.
pub proof fn gate_turns_outliers_away(a: Real, b: Real, chi2: Real, wider: Real)
    requires
        a.at_most(b),
        chi2.at_most(wider),
    ensures
        !admitted(Some(a), chi2) ==> !admitted(Some(b), chi2),
        admitted(Some(a), chi2) ==> admitted(Some(a), wider),
        !admitted(None, chi2),
{
}

// ---- the first fix ----------------------------------------------------------

/// What a position fix is used for.
#[derive(Clone, Copy, Debug, PartialEq, Eq, Structural)]
pub enum FixUse {
    /// It is taken over as it is.
    Adopt,
    /// It corrects what is estimated, if it is let in.
    Aid,
}

/// Whether there was a position fix.
#[derive(Clone, Copy, Debug, PartialEq, Eq, Structural)]
pub struct FixState {
    pub have_fix: bool,
}

impl FixState {
    pub open spec fn fix_use(self) -> FixUse {
        if self.have_fix {
            FixUse::Aid
        } else {
            FixUse::Adopt
        }
    }

    pub fn new() -> (r: FixState)
        ensures
            r == (FixState { have_fix: false }),
    {
        FixState { have_fix: false }
    }

    /// Says what a fix is used for, and notes it.
    pub fn update_gps(&mut self) -> (r: FixUse)
        ensures
            r == old(self).fix_use(),
            *final(self) == (FixState { have_fix: true }),
    {
        if self.have_fix {
            FixUse::Aid
        } else {
            self.have_fix = true;
            FixUse::Adopt
        }
    }
}

/// The uses of `n` fixes, one after the other.
pub open spec fn fix_uses(s: FixState, n: nat) -> Seq<FixUse>
    decreases n,
{
    if n == 0 {
        Seq::empty()
    } else {
        seq![s.fix_use()] + fix_uses(FixState { have_fix: true }, (n - 1) as nat)
    }
}

/// Only the first fix is taken over as it is; all others have to be let in.
pub proof fn only_first_fix_is_adopted(n: nat, i: int)
    requires
        0 <= i < n,
    ensures
        fix_uses((FixState { have_fix: false }), n).len() == n,
        fix_uses((FixState { have_fix: false }), n)[i] == (if i == 0 {
            FixUse::Adopt
        } else {
            FixUse::Aid
        }),
{
    later_fixes_aid((n - 1) as nat);
}

proof fn later_fixes_aid(n: nat)
    ensures
        fix_uses((FixState { have_fix: true }), n).len() == n,
        forall|i: int|
            0 <= i < n ==> (#[trigger] fix_uses((FixState { have_fix: true }), n)[i])
                == FixUse::Aid,
    decreases n,
{
    if n > 0 {
        later_fixes_aid((n - 1) as nat);
    }
}

// ---- covariances ------------------------------------------------------------

/// Entry `(i, j)` of a matrix with `dim` columns.
pub open spec fn entry(m: Seq<Real>, dim: int, i: int, j: int) -> Real {
    m[i * dim + j]
}

/// Whether a list holds the entries of a matrix, given by a function of row and column.
pub open spec fn is_matrix(m: Seq<Real>, dim: int, f: spec_fn(int, int) -> Real) -> bool {
    &&& m.len() == dim * dim
    &&& forall|i: int, j: int|
        0 <= i < dim && 0 <= j < dim ==> #[trigger] entry(m, dim, i, j) == f(i, j)
}

/// A diagonal matrix whose diagonal holds each variance three times.
pub open spec fn block_entry(variances: Seq<Real>, i: int, j: int) -> Real {
    if i == j {
        variances[i / 3]
    } else {
        Real::zero_value()
    }
}

/// The covariance after the first fix: position and velocity are as uncertain as the
/// fix, and what was known of their relation to the rest no longer holds.
pub open spec fn fixed_entry(m: Seq<Real>, position: Real, velocity: Real, i: int, j: int) -> Real {
    if i >= MOTION_DIM && j >= MOTION_DIM {
        entry(m, INS_DIM as int, i, j)
    } else if i != j {
        Real::zero_value()
    } else if i < 3 {
        position
    } else {
        velocity
    }
}

/// A list that was extended by one entry of a matrix.
proof fn one_more_entry(m: Seq<Real>, x: Real, dim: int, i: int, j: int)
    requires
        0 <= i < dim,
        0 <= j < dim,
        m.len() == i * dim + j,
    ensures
        forall|a: int, b: int|
            0 <= a && 0 <= b < dim && (a < i || a == i && b < j) ==> #[trigger] entry(
                m.push(x),
                dim,
                a,
                b,
            ) == entry(m, dim, a, b),
        entry(m.push(x), dim, i, j) == x,
{
    assert forall|a: int, b: int|
        0 <= a && 0 <= b < dim && (a < i || a == i && b < j) implies #[trigger] entry(
        m.push(x),
        dim,
        a,
        b,
    ) == entry(m, dim, a, b) by {
        assert(0 <= a * dim + b < i * dim + j) by (nonlinear_arith)
            requires
                0 <= a,
                0 <= b < dim,
                0 <= j,
                a < i || a == i && b < j,
        ;
    }
}

/// The covariance that an estimator starts with: each variance belongs to three entries
/// of its state, and nothing is known to be related.
pub fn initial_covariance(variances: &Vec<Real>) -> (r: Vec<Real>)
    requires
        9 * (variances@.len() * variances@.len()) <= usize::MAX,
    ensures
        is_matrix(
            r@,
            3 * (variances@.len() as int),
            |i: int, j: int| block_entry(variances@, i, j),
        ),
{
    let n: usize = variances.len();
    assert(3 * n <= usize::MAX && (3 * n) * (3 * n) == 9 * (n * n)) by (nonlinear_arith)
        requires
            9 * (n * n) <= usize::MAX,
            n >= 0,
    ;
    let dim: usize = 3 * n;
    let mut r: Vec<Real> = Vec::new();
    let mut i: usize = 0;
    while i < dim
        invariant
            dim == 3 * variances@.len(),
            i <= dim,
            r@.len() == i * dim,
            forall|a: int, b: int|
                0 <= a < i && 0 <= b < dim ==> #[trigger] entry(r@, dim as int, a, b)
                    == block_entry(variances@, a, b),
        decreases dim - i,
    {
        let mut j: usize = 0;
        assert(i * dim + 0 == i * dim);
        while j < dim
            invariant
                dim == 3 * variances@.len(),
                i < dim,
                j <= dim,
                r@.len() == i * dim + j,
                forall|a: int, b: int|
                    0 <= a && 0 <= b < dim && (a < i || a == i && b < j) ==> #[trigger] entry(
                        r@,
                        dim as int,
                        a,
                        b,
                    ) == block_entry(variances@, a, b),
            decreases dim - j,
        {
            let x = if i == j {
                variances[i / 3]
            } else {
                Real::zero()
            };
            proof {
                one_more_entry(r@, x, dim as int, i as int, j as int);
            }
            r.push(x);
            j = j + 1;
        }
        assert(i * dim + dim == (i + 1) * dim) by (nonlinear_arith);
        i = i + 1;
    }
    r
}

/// The covariance after the first fix, whose variances are handed in.
pub fn covariance_at_fix(cov: &Vec<Real>, position: Real, velocity: Real) -> (r: Vec<Real>)
    requires
        cov@.len() == INS_DIM * INS_DIM,
    ensures
        is_matrix(
            r@,
            INS_DIM as int,
            |i: int, j: int| fixed_entry(cov@, position, velocity, i, j),
        ),
{
    let mut r: Vec<Real> = Vec::new();
    let mut i: usize = 0;
    while i < INS_DIM
        invariant
            cov@.len() == INS_DIM * INS_DIM,
            i <= INS_DIM,
            r@.len() == i * INS_DIM,
            forall|a: int, b: int|
                0 <= a < i && 0 <= b < INS_DIM ==> #[trigger] entry(r@, INS_DIM as int, a, b)
                    == fixed_entry(cov@, position, velocity, a, b),
        decreases INS_DIM - i,
    {
        let mut j: usize = 0;
        while j < INS_DIM
            invariant
                cov@.len() == INS_DIM * INS_DIM,
                i < INS_DIM,
                j <= INS_DIM,
                r@.len() == i * INS_DIM + j,
                forall|a: int, b: int|
                    0 <= a && 0 <= b < INS_DIM && (a < i || a == i && b < j)
                        ==> #[trigger] entry(r@, INS_DIM as int, a, b) == fixed_entry(
                        cov@,
                        position,
                        velocity,
                        a,
                        b,
                    ),
            decreases INS_DIM - j,
        {
            let x = if i >= MOTION_DIM && j >= MOTION_DIM {
                cov[i * INS_DIM + j]
            } else if i != j {
                Real::zero()
            } else if i < 3 {
                position
            } else {
                velocity
            };
            proof {
                one_more_entry(r@, x, INS_DIM as int, i as int, j as int);
            }
            r.push(x);
            j = j + 1;
        }
        i = i + 1;
    }
    r
}

/// Whether a matrix is its own transpose.
pub open spec fn is_symmetric(m: Seq<Real>, dim: int) -> bool {
    forall|i: int, j: int|
        0 <= i < dim && 0 <= j < dim ==> #[trigger] entry(m, dim, i, j) == entry(m, dim, j, i)
}

/// An estimator starts with a symmetric covariance.
pub proof fn initial_covariance_is_symmetric(m: Seq<Real>, variances: Seq<Real>)
    requires
        is_matrix(m, 3 * (variances.len() as int), |i: int, j: int| block_entry(variances, i, j)),
    ensures
        is_symmetric(m, 3 * (variances.len() as int)),
{
    let dim: int = 3 * (variances.len() as int);
    assert forall|i: int, j: int| 0 <= i < dim && 0 <= j < dim implies #[trigger] entry(
        m,
        dim,
        i,
        j,
    ) == entry(m, dim, j, i) by {
        assert(entry(m, dim, j, i) == block_entry(variances, j, i));
    }
}

/// The first fix leaves the covariance symmetric, does not touch what is known of
/// attitude and biases among themselves, and relates position and velocity to nothing.
pub proof fn fix_decouples_motion(
    before: Seq<Real>,
    after: Seq<Real>,
    position: Real,
    velocity: Real,
    i: int,
    j: int,
)
    requires
        is_symmetric(before, INS_DIM as int),
        is_matrix(
            after,
            INS_DIM as int,
            |a: int, b: int| fixed_entry(before, position, velocity, a, b),
        ),
        0 <= i < INS_DIM,
        0 <= j < INS_DIM,
    ensures
        is_symmetric(after, INS_DIM as int),
        i >= MOTION_DIM && j >= MOTION_DIM ==> entry(after, INS_DIM as int, i, j) == entry(
            before,
            INS_DIM as int,
            i,
            j,
        ),
        i < MOTION_DIM && i != j ==> entry(after, INS_DIM as int, i, j) == Real::zero_value(),
{
    let dim = INS_DIM as int;
    assert forall|a: int, b: int| 0 <= a < dim && 0 <= b < dim implies #[trigger] entry(
        after,
        dim,
        a,
        b,
    ) == entry(after, dim, b, a) by {
        assert(entry(before, dim, a, b) == entry(before, dim, b, a));
        assert(entry(after, dim, b, a) == fixed_entry(before, position, velocity, b, a));
    }
    assert(entry(after, dim, i, j) == fixed_entry(before, position, velocity, i, j));
}

// ---- cross products ---------------------------------------------------------

/// The matrix that a cross product with `v` comes to, row by row.
pub open spec fn skew_entries(v: Vec3) -> Seq<Real> {
    let z = Real::zero_value();
    seq![z, v.z.negated(), v.y, v.z, z, v.x.negated(), v.y.negated(), v.x, z]
}

/// The matrix that a cross product with `v` comes to, row by row.
pub fn skew(v: Vec3) -> (r: [Real; 9])
    ensures
        r@ == skew_entries(v),
{
    let z = Real::zero();
    let r = [z, v.z.neg(), v.y, v.z, z, v.x.neg(), v.y.neg(), v.x, z];
    assert(r@ =~= skew_entries(v));
    r
}

/// Beside its diagonal the matrix changes sign when it is transposed.
pub proof fn skew_is_antisymmetric(v: Vec3, i: int, j: int)
    requires
        0 <= i < 3,
        0 <= j < 3,
        i != j,
    ensures
        entry(skew_entries(v), 3, i, j) == entry(skew_entries(v), 3, j, i).negated(),
{
    assert(v.x.negated().negated() == v.x);
    assert(v.y.negated().negated() == v.y);
    assert(v.z.negated().negated() == v.z);
    assert(i * 3 + j == 3 * i + j && j * 3 + i == 3 * j + i);
}

/// An accelerometer that measures next to nothing is not taken for one that measures gravity,
/// nor is one that is off by its bound or more; one that is off by less is.
pub proof fn gravity_is_what_deviates_little(norm: Real, deviation: Real, gate: Real, less: Real)
    ensures
        norm.at_most(Real::zero_value()) ==> !is_gravity(norm, deviation, gate),
        gate.at_most(deviation) ==> !is_gravity(norm, deviation, gate),
        Real::one_value().at_most(norm) && deviation.less(gate) ==> is_gravity(
            norm,
            deviation,
            gate,
        ),
        is_gravity(norm, deviation, gate) && less.at_most(deviation) ==> is_gravity(
            norm,
            less,
            gate,
        ),
{
}

/// A gate lets in exactly what is no further off than it is wide.
pub proof fn gate_lets_in_up_to_its_width(nis: Real, chi2: Real)
    requires
        nis.is_number(),
        chi2.is_number(),
    ensures
        admitted(Some(nis), chi2) <==> nis.at_most(chi2),
        !admitted(None, chi2),
{
}

/// A matrix is a list of its rows, one after the other.
pub proof fn rows_follow_each_other(
    m: Seq<Real>,
    dim: int,
    f: spec_fn(int, int) -> Real,
    i: int,
    j: int,
)
    requires
        is_matrix(m, dim, f),
        0 <= i < dim,
        0 <= j < dim,
    ensures
        m.len() == dim * dim,
        m[i * dim + j] == f(i, j),
{
    assert(entry(m, dim, i, j) == f(i, j));
}

/// An estimator starts with each variance on the diagonal three times in a row, and with
/// nothing beside the diagonal.
pub proof fn initial_covariance_is_diagonal(
    m: Seq<Real>,
    variances: Seq<Real>,
    k: int,
    c: int,
    j: int,
)
    requires
        is_matrix(m, 3 * (variances.len() as int), |i: int, j: int| block_entry(variances, i, j)),
        0 <= k < variances.len(),
        0 <= c < 3,
        0 <= j < 3 * variances.len(),
    ensures
        ({
            let dim = 3 * (variances.len() as int);
            let i = 3 * k + c;
            &&& j == i ==> m[i * dim + j] == variances[k]
            &&& j != i ==> m[i * dim + j] == Real::zero_value()
        }),
{
    let dim = 3 * (variances.len() as int);
    let i = 3 * k + c;
    assert(entry(m, dim, i, j) == block_entry(variances, i, j));
}

/// After the first fix position is as uncertain as the fix's position and velocity as its
/// velocity, each along its three axes, and neither is related to anything.
pub proof fn fix_sets_its_own_uncertainty(
    before: Seq<Real>,
    after: Seq<Real>,
    position: Real,
    velocity: Real,
    i: int,
    j: int,
)
    requires
        is_matrix(
            after,
            INS_DIM as int,
            |a: int, b: int| fixed_entry(before, position, velocity, a, b),
        ),
        0 <= i < 15,
        0 <= j < 15,
    ensures
        i == j && i < 3 ==> after[i * 15 + j] == position,
        i == j && 3 <= i < 6 ==> after[i * 15 + j] == velocity,
        i != j && (i < 6 || j < 6) ==> after[i * 15 + j] == Real::zero_value(),
        i >= 6 && j >= 6 ==> after[i * 15 + j] == before[i * 15 + j],
{
    assert(entry(after, INS_DIM as int, i, j) == fixed_entry(before, position, velocity, i, j));
}

/// The matrix of a cross product has nothing on its diagonal; above it stand the parts of the
/// vector, each in the row and column of neither of the other two, with the signs of a cross
/// product.
pub proof fn skew_is_a_cross_product(v: Vec3, i: int)
    requires
        0 <= i < 3,
    ensures
        skew_entries(v).len() == 9,
        skew_entries(v)[3 * i + i] == Real::zero_value(),
        skew_entries(v)[1] == v.z.negated() && skew_entries(v)[3] == v.z,
        skew_entries(v)[2] == v.y && skew_entries(v)[6] == v.y.negated(),
        skew_entries(v)[5] == v.x.negated() && skew_entries(v)[7] == v.x,
{
}

/// What measures less than a millionth, or just that, is no gravity, however little it deviates;
/// what measures more is, if it deviates by less than its bound.
pub proof fn gravity_measures_something(norm: Real, deviation: Real, gate: Real)
    ensures
        norm.at_most(Real { bits: 0x3eb0_c6f7_a0b5_ed8d }) ==> !is_gravity(norm, deviation, gate),
        (Real { bits: 0x3eb0_c6f7_a0b5_ed8d }).less(norm) ==> (is_gravity(norm, deviation, gate)
            <==> deviation.less(gate)),
{
}

} // verus!
