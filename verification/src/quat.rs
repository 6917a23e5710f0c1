//! Rotation quaternions over fixed-point scalars.
//!
//! The Hamilton product, vector rotation, axis-angle construction and
//! renormalization are all exact functions of their fixed-point inputs,
//! mirrored one-to-one by specification functions. Renormalization carries a
//! proved bound: the squared norm of its result is within `8 * SCALE` of the
//! squared norm of one, far inside a drift of one millionth.

use vstd::prelude::*;
use vstd::arithmetic::div_mod::lemma_div_pos_is_pos;
use vstd::arithmetic::div_mod::lemma_div_multiples_vanish;
use vstd::arithmetic::div_mod::lemma_fundamental_div_mod;
use crate::fx::{
    SCALE, SCALE2, sp_fmul, tdiv, sp_sqrt, sp_clamp, fmul, tdiv_pos, clamp, isqrt,
    lemma_fmul_le, lemma_fmul_unit, lemma_fmul_zero, lemma_tdiv_abs, lemma_sqrt_bracket,
    lemma_sq_le_implies_le,
};
use crate::vec3::{Vec3, V3, vwithin};

verus! {

/// Largest magnitude accepted by the Hamilton product.
pub const QMUL_IN: i128 = 400_000_000_000_000_000;

/// Largest magnitude accepted by renormalization.
pub const QBIG: i128 = 4_000_000_000_000_000_000;

/// Smallest squared norm renormalization accepts: a norm of one quarter.
pub const NORM2_LO: i128 = 62_500_000_000_000_000;

/// Bound on the components of a rotated unit axis.
pub const ROTB: i128 = 130_000_000_000;

/// Largest tick rotation angle accepted by the axis-angle construction.
pub const ANGB: i128 = 33_000_000_000;

/// Component bound of an axis-angle increment quaternion.
pub const AXISQ_B: i128 = 300_000_000_000;

/// Clamp bound applied to the polynomial sine and cosine.
pub const TRIG_LIM: i128 = 2_000_000_000;

/// A rotation quaternion `w + x*i + y*j + z*k` of fixed-point scalars.
#[derive(Clone, Copy, Debug, PartialEq, Eq)]
pub struct Quat {
    pub x: i128,
    pub y: i128,
    pub z: i128,
    pub w: i128,
}

/// Mathematical view of a quaternion: four unbounded integers in fixed-point
/// units.
pub struct Q4 {
    pub x: int,
    pub y: int,
    pub z: int,
    pub w: int,
}

impl View for Quat {
    type V = Q4;

    open spec fn view(&self) -> Q4 {
        Q4 { x: self.x as int, y: self.y as int, z: self.z as int, w: self.w as int }
    }
}

/// Every component within `m` of zero.
pub open spec fn qwithin(q: Q4, m: int) -> bool {
    &&& -m <= q.x <= m
    &&& -m <= q.y <= m
    &&& -m <= q.z <= m
    &&& -m <= q.w <= m
}

/// The identity rotation.
pub open spec fn sp_qident() -> Q4 {
    Q4 { x: 0, y: 0, z: 0, w: SCALE as int }
}

/// Fixed-point Hamilton product.
pub open spec fn sp_qmul(a: Q4, b: Q4) -> Q4 {
    Q4 {
        x: sp_fmul(a.w, b.x) + sp_fmul(a.x, b.w) + sp_fmul(a.y, b.z) - sp_fmul(a.z, b.y),
        y: sp_fmul(a.w, b.y) - sp_fmul(a.x, b.z) + sp_fmul(a.y, b.w) + sp_fmul(a.z, b.x),
        z: sp_fmul(a.w, b.z) + sp_fmul(a.x, b.y) - sp_fmul(a.y, b.x) + sp_fmul(a.z, b.w),
        w: sp_fmul(a.w, b.w) - sp_fmul(a.x, b.x) - sp_fmul(a.y, b.y) - sp_fmul(a.z, b.z),
    }
}

/// Conjugate: the inverse rotation for a unit quaternion.
pub open spec fn sp_qconj(q: Q4) -> Q4 {
    Q4 { x: -q.x, y: -q.y, z: -q.z, w: q.w }
}

/// Squared norm in squared fixed-point units.
pub open spec fn sp_norm2q(q: Q4) -> int {
    q.x * q.x + q.y * q.y + q.z * q.z + q.w * q.w
}

/// Rotate a vector: `q * (v, 0) * conj(q)`, keeping the vector part.
pub open spec fn sp_rotate(q: Q4, v: V3) -> V3 {
    let p = sp_qmul(sp_qmul(q, Q4 { x: v.x, y: v.y, z: v.z, w: 0 }), sp_qconj(q));
    V3 { x: p.x, y: p.y, z: p.z }
}

/// Polynomial sine, clamped; accurate for tick-sized half angles.
pub open spec fn sp_sin_poly(t: int) -> int {
    let t2 = sp_fmul(t, t);
    let t3 = sp_fmul(t2, t);
    let t5 = sp_fmul(t3, t2);
    sp_clamp(t - tdiv(t3, 6) + tdiv(t5, 120), -(TRIG_LIM as int), TRIG_LIM as int)
}

/// Polynomial cosine, clamped; accurate for tick-sized half angles.
pub open spec fn sp_cos_poly(t: int) -> int {
    let t2 = sp_fmul(t, t);
    let t4 = sp_fmul(t2, t2);
    sp_clamp((SCALE as int) - tdiv(t2, 2) + tdiv(t4, 24), -(TRIG_LIM as int), TRIG_LIM as int)
}

/// Rotation by `angle` about `axis`: the half-angle sine scales the axis,
/// the half-angle cosine is the scalar part.
pub open spec fn sp_axis_angle(axis: V3, angle: int) -> Q4 {
    let h = tdiv(angle, 2);
    let s = sp_sin_poly(h);
    let c = sp_cos_poly(h);
    Q4 { x: sp_fmul(axis.x, s), y: sp_fmul(axis.y, s), z: sp_fmul(axis.z, s), w: c }
}

/// Rescale to a unit quaternion: each component is divided by the norm.
pub open spec fn sp_renorm(q: Q4) -> Q4 {
    let n = sp_sqrt(sp_norm2q(q));
    Q4 {
        x: tdiv(q.x * (SCALE as int), n),
        y: tdiv(q.y * (SCALE as int), n),
        z: tdiv(q.z * (SCALE as int), n),
        w: tdiv(q.w * (SCALE as int), n),
    }
}

/// Bounds on both factors bound every component of the Hamilton product.
pub proof fn lemma_qmul_bound(a: Q4, b: Q4, ma: int, mb: int)
    requires
        0 <= ma,
        0 <= mb,
        qwithin(a, ma),
        qwithin(b, mb),
    ensures
        qwithin(sp_qmul(a, b), 4 * ((ma * mb) / (SCALE as int))),
{
    lemma_fmul_le(a.w, b.x, ma, mb);
    lemma_fmul_le(a.x, b.w, ma, mb);
    lemma_fmul_le(a.y, b.z, ma, mb);
    lemma_fmul_le(a.z, b.y, ma, mb);
    lemma_fmul_le(a.w, b.y, ma, mb);
    lemma_fmul_le(a.x, b.z, ma, mb);
    lemma_fmul_le(a.y, b.w, ma, mb);
    lemma_fmul_le(a.z, b.x, ma, mb);
    lemma_fmul_le(a.w, b.z, ma, mb);
    lemma_fmul_le(a.x, b.y, ma, mb);
    lemma_fmul_le(a.y, b.x, ma, mb);
    lemma_fmul_le(a.z, b.w, ma, mb);
    lemma_fmul_le(a.w, b.w, ma, mb);
    lemma_fmul_le(a.x, b.x, ma, mb);
    lemma_fmul_le(a.y, b.y, ma, mb);
    lemma_fmul_le(a.z, b.z, ma, mb);
}

/// Multiplying by the identity on the left returns the quaternion exactly.
pub proof fn lemma_qmul_identity(q: Q4)
    ensures
        sp_qmul(sp_qident(), q) == q,
{
    lemma_fmul_unit(q.x);
    lemma_fmul_unit(q.y);
    lemma_fmul_unit(q.z);
    lemma_fmul_unit(q.w);
    lemma_fmul_zero(q.x);
    lemma_fmul_zero(q.y);
    lemma_fmul_zero(q.z);
    lemma_fmul_zero(q.w);
}

/// One component of renormalization: dividing the rescaled component by the
/// norm keeps its square between exact rescaling and a deficit of at most
/// `2 * n * SCALE * n`, and keeps its magnitude within one whole unit.
proof fn lemma_renorm_comp(qi: int, n: int)
    requires
        1 <= n,
        -n <= qi <= n,
    ensures
        ({
            let r = tdiv(qi * (SCALE as int), n);
            let s = SCALE as int;
            &&& n * n * (r * r) <= qi * qi * s * s
            &&& n * n * (r * r) >= qi * qi * s * s - 2 * n * s * n
            &&& -s <= r <= s
        }),
{
    let s = SCALE as int;
    let a: int = if qi >= 0 {
        qi
    } else {
        -qi
    };
    assert(0 <= a <= n);
    let p = a * s;
    assert(0 <= p <= n * s) by (nonlinear_arith)
        requires
            0 <= a <= n,
            s == 1_000_000_000,
            p == a * s,
    ;
    let d = p / n;
    lemma_fundamental_div_mod(p, n);
    lemma_div_pos_is_pos(p, n);
    let m = p % n;
    assert(n * n * (d * d) <= p * p) by (nonlinear_arith)
        requires
            1 <= n,
            0 <= d,
            0 <= m,
            p == n * d + m,
    ;
    assert(n * n * (d * d) >= p * p - 2 * n * p) by (nonlinear_arith)
        requires
            1 <= n,
            0 <= d,
            0 <= m < n,
            p == n * d + m,
    ;
    lemma_div_multiples_vanish(s, n);
    lemma_tdiv_abs(p, n, n * s);
    assert(d <= s);
    let r = tdiv(qi * s, n);
    if qi >= 0 {
        assert(qi * s == p) by (nonlinear_arith)
            requires
                a == qi,
                p == a * s,
        ;
        assert(r == d);
    } else {
        assert(qi * s == -p) by (nonlinear_arith)
            requires
                a == -qi,
                p == a * s,
        ;
        assert(p > 0) by (nonlinear_arith)
            requires
                a >= 1,
                s == 1_000_000_000,
                p == a * s,
        ;
        assert(r == -d);
    }
    assert(r * r == d * d) by (nonlinear_arith)
        requires
            r == d || r == -d,
    ;
    assert(p * p == qi * qi * s * s) by (nonlinear_arith)
        requires
            p == a * s,
            a == qi || a == -qi,
    ;
    assert(2 * n * p <= 2 * n * s * n) by (nonlinear_arith)
        requires
            1 <= n,
            0 <= p <= n * s,
    ;
}

/// Renormalization lands the squared norm within `8 * SCALE` of the squared
/// norm of one, provided the input norm is at least one quarter.
proof fn lemma_renorm_norm(q: Q4)
    requires
        qwithin(q, QBIG as int),
        sp_norm2q(q) >= NORM2_LO as int,
    ensures
        (SCALE2 as int) - 8 * (SCALE as int) <= sp_norm2q(sp_renorm(q)) <= (SCALE2 as int) + 8
            * (SCALE as int),
        qwithin(sp_renorm(q), SCALE as int),
{
    let s = SCALE as int;
    let n2 = sp_norm2q(q);
    lemma_sqrt_bracket(n2);
    let n = sp_sqrt(n2);
    assert(n >= s / 4) by (nonlinear_arith)
        requires
            0 <= n,
            n2 < (n + 1) * (n + 1),
            n2 >= NORM2_LO as int,
            NORM2_LO == 62_500_000_000_000_000i128,
            s == 1_000_000_000,
    ;
    assert(q.x * q.x >= 0 && q.y * q.y >= 0 && q.z * q.z >= 0 && q.w * q.w >= 0)
        by (nonlinear_arith);
    lemma_sq_le_implies_le(q.x, n, n2);
    lemma_sq_le_implies_le(q.y, n, n2);
    lemma_sq_le_implies_le(q.z, n, n2);
    lemma_sq_le_implies_le(q.w, n, n2);
    lemma_renorm_comp(q.x, n);
    lemma_renorm_comp(q.y, n);
    lemma_renorm_comp(q.z, n);
    lemma_renorm_comp(q.w, n);
    let r = sp_renorm(q);
    let n2r = sp_norm2q(r);
    let rx2 = r.x * r.x;
    let ry2 = r.y * r.y;
    let rz2 = r.z * r.z;
    let rw2 = r.w * r.w;
    let qx2 = q.x * q.x;
    let qy2 = q.y * q.y;
    let qz2 = q.z * q.z;
    let qw2 = q.w * q.w;
    assert(n * n * n2r == n * n * rx2 + n * n * ry2 + n * n * rz2 + n * n * rw2)
        by (nonlinear_arith)
        requires
            n2r == rx2 + ry2 + rz2 + rw2,
    ;
    assert(s * s * n2 == qx2 * s * s + qy2 * s * s + qz2 * s * s + qw2 * s * s)
        by (nonlinear_arith)
        requires
            n2 == qx2 + qy2 + qz2 + qw2,
    ;
    let t = 2 * n * s * n;
    assert(n * n * n2r <= s * s * n2);
    assert(n * n * n2r >= s * s * n2 - 4 * t);
    assert(n2r <= s * s + 8 * s) by (nonlinear_arith)
        requires
            n * n * n2r <= s * s * n2,
            n * n <= n2,
            n2 < (n + 1) * (n + 1),
            n >= s / 4,
            s == 1_000_000_000,
    ;
    assert(n2r >= s * s - 8 * s) by (nonlinear_arith)
        requires
            n * n * n2r >= s * s * n2 - 4 * t,
            t == 2 * n * s * n,
            n * n <= n2,
            n >= 1,
            s == 1_000_000_000,
    ;
}

impl Quat {
    /// Build a quaternion from its components.
    pub fn new(x: i128, y: i128, z: i128, w: i128) -> (r: Quat)
        ensures
            r@ == (Q4 { x: x as int, y: y as int, z: z as int, w: w as int }),
    {
        Quat { x, y, z, w }
    }

    /// The identity rotation.
    pub fn identity() -> (r: Quat)
        ensures
            r@ == sp_qident(),
    {
        Quat { x: 0, y: 0, z: 0, w: SCALE }
    }

    /// Conjugate: the inverse rotation for a unit quaternion.
    pub fn conj(self) -> (r: Quat)
        requires
            -(i128::MAX as int) <= self@.x <= i128::MAX as int,
            -(i128::MAX as int) <= self@.y <= i128::MAX as int,
            -(i128::MAX as int) <= self@.z <= i128::MAX as int,
        ensures
            r@ == sp_qconj(self@),
    {
        Quat { x: -self.x, y: -self.y, z: -self.z, w: self.w }
    }

    /// Fixed-point Hamilton product.
    pub fn mul_quat(self, o: Quat) -> (r: Quat)
        requires
            qwithin(self@, QMUL_IN as int),
            qwithin(o@, QMUL_IN as int),
        ensures
            r@ == sp_qmul(self@, o@),
    {
        proof {
            lemma_fmul_le(self@.w, o@.x, QMUL_IN as int, QMUL_IN as int);
            lemma_fmul_le(self@.x, o@.w, QMUL_IN as int, QMUL_IN as int);
            lemma_fmul_le(self@.y, o@.z, QMUL_IN as int, QMUL_IN as int);
            lemma_fmul_le(self@.z, o@.y, QMUL_IN as int, QMUL_IN as int);
            lemma_fmul_le(self@.w, o@.y, QMUL_IN as int, QMUL_IN as int);
            lemma_fmul_le(self@.x, o@.z, QMUL_IN as int, QMUL_IN as int);
            lemma_fmul_le(self@.y, o@.w, QMUL_IN as int, QMUL_IN as int);
            lemma_fmul_le(self@.z, o@.x, QMUL_IN as int, QMUL_IN as int);
            lemma_fmul_le(self@.w, o@.z, QMUL_IN as int, QMUL_IN as int);
            lemma_fmul_le(self@.x, o@.y, QMUL_IN as int, QMUL_IN as int);
            lemma_fmul_le(self@.y, o@.x, QMUL_IN as int, QMUL_IN as int);
            lemma_fmul_le(self@.z, o@.w, QMUL_IN as int, QMUL_IN as int);
            lemma_fmul_le(self@.w, o@.w, QMUL_IN as int, QMUL_IN as int);
            lemma_fmul_le(self@.x, o@.x, QMUL_IN as int, QMUL_IN as int);
            lemma_fmul_le(self@.y, o@.y, QMUL_IN as int, QMUL_IN as int);
            lemma_fmul_le(self@.z, o@.z, QMUL_IN as int, QMUL_IN as int);
        }
        let x: i128 = fmul(self.w, o.x) + fmul(self.x, o.w) + fmul(self.y, o.z) - fmul(
            self.z,
            o.y,
        );
        let y: i128 = fmul(self.w, o.y) - fmul(self.x, o.z) + fmul(self.y, o.w) + fmul(
            self.z,
            o.x,
        );
        let z: i128 = fmul(self.w, o.z) + fmul(self.x, o.y) - fmul(self.y, o.x) + fmul(
            self.z,
            o.w,
        );
        let w: i128 = fmul(self.w, o.w) - fmul(self.x, o.x) - fmul(self.y, o.y) - fmul(
            self.z,
            o.z,
        );
        Quat { x, y, z, w }
    }

    /// Rotate a vector by this quaternion.
    pub fn mul_vec3(self, v: Vec3) -> (r: Vec3)
        requires
            qwithin(self@, 2 * (SCALE as int)),
            vwithin(v@, 2 * (SCALE as int)),
        ensures
            r@ == sp_rotate(self@, v@),
            vwithin(r@, ROTB as int),
    {
        let vq = Quat { x: v.x, y: v.y, z: v.z, w: 0 };
        proof {
            lemma_qmul_bound(self@, vq@, 2 * (SCALE as int), 2 * (SCALE as int));
        }
        let p1 = self.mul_quat(vq);
        proof {
            lemma_qmul_bound(sp_qmul(self@, vq@), sp_qconj(self@), 16_000_000_000int, 2 * (
            SCALE as int));
        }
        let p2 = p1.mul_quat(self.conj());
        Vec3 { x: p2.x, y: p2.y, z: p2.z }
    }

    /// Rotation by `angle` about `axis`, built from the clamped polynomial
    /// half-angle sine and cosine.
    pub fn from_axis_angle(axis: Vec3, angle: i128) -> (r: Quat)
        requires
            vwithin(axis@, ROTB as int),
            -(ANGB as int) <= angle as int <= ANGB as int,
        ensures
            r@ == sp_axis_angle(axis@, angle as int),
            qwithin(r@, AXISQ_B as int),
    {
        let h: i128 = tdiv_pos(angle, 2);
        proof {
            lemma_tdiv_abs(angle as int, 2, ANGB as int);
            lemma_fmul_le(h as int, h as int, 16_500_000_000int, 16_500_000_000int);
        }
        let t2: i128 = fmul(h, h);
        proof {
            lemma_fmul_le(t2 as int, h as int, 272_250_000_000int, 16_500_000_000int);
        }
        let t3: i128 = fmul(t2, h);
        proof {
            lemma_fmul_le(t3 as int, t2 as int, 4_492_125_000_000int, 272_250_000_000int);
            lemma_tdiv_abs(t3 as int, 6, 4_492_125_000_000int);
        }
        let t5: i128 = fmul(t3, t2);
        proof {
            lemma_tdiv_abs(t5 as int, 120, 1_222_981_031_250_000int);
        }
        let sraw: i128 = h - tdiv_pos(t3, 6) + tdiv_pos(t5, 120);
        let s: i128 = clamp(sraw, -TRIG_LIM, TRIG_LIM);
        proof {
            lemma_fmul_le(t2 as int, t2 as int, 272_250_000_000int, 272_250_000_000int);
            lemma_tdiv_abs(t2 as int, 2, 272_250_000_000int);
            lemma_tdiv_abs(sp_fmul(t2 as int, t2 as int), 24, 74_120_062_500_000int);
        }
        let t4: i128 = fmul(t2, t2);
        let craw: i128 = SCALE - tdiv_pos(t2, 2) + tdiv_pos(t4, 24);
        let c: i128 = clamp(craw, -TRIG_LIM, TRIG_LIM);
        proof {
            lemma_fmul_le(axis@.x, s as int, ROTB as int, TRIG_LIM as int);
            lemma_fmul_le(axis@.y, s as int, ROTB as int, TRIG_LIM as int);
            lemma_fmul_le(axis@.z, s as int, ROTB as int, TRIG_LIM as int);
        }
        Quat { x: fmul(axis.x, s), y: fmul(axis.y, s), z: fmul(axis.z, s), w: c }
    }

    /// Squared norm in squared fixed-point units.
    pub fn norm2(self) -> (r: i128)
        requires
            qwithin(self@, QBIG as int),
        ensures
            r as int == sp_norm2q(self@),
            r >= 0,
    {
        proof {
            lemma_fmul_le(self@.x, self@.x, QBIG as int, QBIG as int);
            lemma_fmul_le(self@.y, self@.y, QBIG as int, QBIG as int);
            lemma_fmul_le(self@.z, self@.z, QBIG as int, QBIG as int);
            lemma_fmul_le(self@.w, self@.w, QBIG as int, QBIG as int);
            assert(self@.x * self@.x >= 0 && self@.y * self@.y >= 0 && self@.z * self@.z >= 0
                && self@.w * self@.w >= 0) by (nonlinear_arith);
        }
        self.x * self.x + self.y * self.y + self.z * self.z + self.w * self.w
    }

    /// Rescale to a unit quaternion; the result's squared norm is within
    /// `8 * SCALE` of the squared norm of one.
    pub fn renormalized(self) -> (r: Quat)
        requires
            qwithin(self@, QBIG as int),
            sp_norm2q(self@) >= NORM2_LO as int,
        ensures
            r@ == sp_renorm(self@),
            qwithin(r@, SCALE as int),
            (SCALE2 as int) - 8 * (SCALE as int) <= sp_norm2q(r@) <= (SCALE2 as int) + 8 * (
            SCALE as int),
    {
        let n2: i128 = self.norm2();
        proof {
            lemma_fmul_le(self@.x, self@.x, QBIG as int, QBIG as int);
            lemma_fmul_le(self@.y, self@.y, QBIG as int, QBIG as int);
            lemma_fmul_le(self@.z, self@.z, QBIG as int, QBIG as int);
            lemma_fmul_le(self@.w, self@.w, QBIG as int, QBIG as int);
        }
        let nu: u128 = isqrt(n2 as u128);
        proof {
            assert((nu as int) <= 9_000_000_000_000_000_000) by (nonlinear_arith)
                requires
                    (nu as int) * (nu as int) <= n2 as int,
                    0 <= nu,
                    n2 as int <= 4 * ((QBIG as int) * (QBIG as int)),
                    QBIG == 4_000_000_000_000_000_000i128,
            ;
        }
        let n: i128 = nu as i128;
        proof {
            assert((n2 as u128) as int == n2 as int);
            assert(nu >= 1) by (nonlinear_arith)
                requires
                    ((n2 as u128) as int) < (((nu as int) + 1) * ((nu as int) + 1)),
                    ((n2 as u128) as int) == n2 as int,
                    n2 as int >= NORM2_LO as int,
                    NORM2_LO == 62_500_000_000_000_000i128,
                    0 <= nu,
            ;
            assert(n >= 1);
            lemma_renorm_norm(self@);
            lemma_fmul_le(self@.x, SCALE as int, QBIG as int, SCALE as int);
            lemma_fmul_le(self@.y, SCALE as int, QBIG as int, SCALE as int);
            lemma_fmul_le(self@.z, SCALE as int, QBIG as int, SCALE as int);
            lemma_fmul_le(self@.w, SCALE as int, QBIG as int, SCALE as int);
        }
        Quat {
            x: tdiv_pos(self.x * SCALE, n),
            y: tdiv_pos(self.y * SCALE, n),
            z: tdiv_pos(self.z * SCALE, n),
            w: tdiv_pos(self.w * SCALE, n),
        }
    }
}

} // verus!
