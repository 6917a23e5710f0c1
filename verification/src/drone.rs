//! A quadrotor's flight dynamics: drag, thrust, gravity, and the per-tick
//! integration of velocity and orientation.
//!
//! Every step is an exact function of the vehicle state, mirrored by a
//! specification function over the mathematical view `QuadV`. The vehicle's
//! well-formedness (`sp_wf`) is established by the constructors and
//! preserved by every tick; among other bounds it keeps the orientation
//! quaternion's norm within one millionth of one.

use vstd::prelude::*;
use crate::fx::{
    SCALE, SCALE2, sp_fmul, sp_fdiv, sp_clamp, tdiv, sp_sqrt, fmul, fdivp, tdiv_pos, clamp,
    isqrt, lemma_fmul_le, lemma_fdiv_le, lemma_fmul_zero, lemma_tdiv_abs, lemma_unit_div,
    lemma_sq_le_implies_le,
};
use crate::vec3::{
    Vec3, V3, v3, v3_zero, vwithin, sp_add3, sp_neg3, sp_scale3, sp_dot3, sp_len2,
    lemma_dot3_le, lemma_len2_zero,
};
use crate::quat::{
    Quat, Q4, qwithin, sp_qident, sp_qmul, sp_norm2q, sp_rotate, sp_axis_angle, sp_renorm,
    lemma_qmul_bound, lemma_qmul_identity, NORM2_LO, ROTB, AXISQ_B,
};

verus! {

/// The circle constant, in fixed-point units.
pub const PI: i128 = 3_141_592_653;

/// Largest velocity component; integration saturates here.
pub const V_LIM: i128 = 1_000_000_000_000;

/// Largest gravity component accepted in a configuration.
pub const G_LIM: i128 = 100_000_000_000;

/// Smallest mass accepted in a configuration (one gram).
pub const MASS_MIN: i128 = 1_000_000;

/// Largest mass accepted in a configuration.
pub const MASS_LIM: i128 = 1_000_000_000_000;

/// Largest motor speed accepted in a configuration.
pub const SPEED_LIM: i128 = 10_000_000_000_000;

/// Largest motor force accepted in a configuration.
pub const FORCE_LIM: i128 = 10_000_000_000_000;

/// Largest drag coefficient and air density accepted in a configuration.
pub const COEF_LIM: i128 = 10_000_000_000;

/// Largest frontal area component accepted in a configuration.
pub const AREA_LIM: i128 = 10_000_000_000;

/// Largest angular rate accepted in a configuration.
pub const ANG_LIM: i128 = 16_000_000_000;

/// Largest timestep a single tick accepts (two seconds).
pub const DT_LIM: i128 = 2_000_000_000;

/// Allowed drift of the orientation's squared norm before renormalization;
/// it keeps the norm within one millionth of one.
pub const QTOL: i128 = 1_000_000_000_000;

/// Bound on a drag force component.
pub const DRAG_LIM: i128 = 2_000_000_000_000_000_000_000;

/// Bound on a thrust force component.
pub const ENG_LIM: i128 = 2_000_000_000_000_000;

/// Bound on a total force component.
pub const TOT_LIM: i128 = 3_000_000_000_000_000_000_000;

/// Bound on an acceleration component.
pub const ACC_LIM: i128 = 4_000_000_000_000_000_000_000_000;

/// The quadrotor: velocity, orientation, configuration constants, and the
/// most recent pilot input. Body front is the x axis, body up the y axis.
#[derive(Debug, PartialEq, Eq)]
pub struct Quadrotor {
    /// World-frame velocity, meters per second.
    pub velocity: Vec3,
    /// World-frame orientation, a near-unit quaternion.
    pub orientation: Quat,
    /// World-frame gravity, meters per second squared.
    pub g: Vec3,
    /// Mass, kilograms.
    pub mass: i128,
    /// Largest motor speed, meters per second.
    pub motor_max_speed: i128,
    /// Largest motor force, newtons.
    pub motor_max_force: i128,
    /// Drag coefficient of the drag model.
    pub air_resistance_coefficient: i128,
    /// Air density, kilograms per cubic meter.
    pub air_density: i128,
    /// Cross-sectional area along the body x, y and z axes, square meters.
    pub frontal_area_xyz: (i128, i128, i128),
    /// Most recent input: throttle in [0, 1], yaw, pitch and roll in [-1, 1].
    /// Written through `update_input`; the physics step only reads it.
    pub last_input: (i128, i128, i128, i128),
    /// Largest yaw, pitch and roll rates, radians per second.
    pub angular_velocity: (i128, i128, i128),
}

/// Mathematical view of the vehicle state, over unbounded integers.
pub struct QuadV {
    pub velocity: V3,
    pub orientation: Q4,
    pub g: V3,
    pub mass: int,
    pub motor_max_speed: int,
    pub motor_max_force: int,
    pub air_resistance_coefficient: int,
    pub air_density: int,
    pub frontal_area: V3,
    pub input_throttle: int,
    pub input_yaw: int,
    pub input_pitch: int,
    pub input_roll: int,
    pub angular_velocity: V3,
}

impl View for Quadrotor {
    type V = QuadV;

    open spec fn view(&self) -> QuadV {
        QuadV {
            velocity: self.velocity@,
            orientation: self.orientation@,
            g: self.g@,
            mass: self.mass as int,
            motor_max_speed: self.motor_max_speed as int,
            motor_max_force: self.motor_max_force as int,
            air_resistance_coefficient: self.air_resistance_coefficient as int,
            air_density: self.air_density as int,
            frontal_area: v3(
                self.frontal_area_xyz.0 as int,
                self.frontal_area_xyz.1 as int,
                self.frontal_area_xyz.2 as int,
            ),
            input_throttle: self.last_input.0 as int,
            input_yaw: self.last_input.1 as int,
            input_pitch: self.last_input.2 as int,
            input_roll: self.last_input.3 as int,
            angular_velocity: v3(
                self.angular_velocity.0 as int,
                self.angular_velocity.1 as int,
                self.angular_velocity.2 as int,
            ),
        }
    }
}

/// Well-formedness: configuration within the fixed-point working range and
/// the orientation a near-unit quaternion.
pub open spec fn sp_wf(m: QuadV) -> bool {
    &&& vwithin(m.velocity, V_LIM as int)
    &&& qwithin(m.orientation, (SCALE as int) + 1000)
    &&& (SCALE2 as int) - (QTOL as int) <= sp_norm2q(m.orientation) <= (SCALE2 as int) + (
    QTOL as int)
    &&& vwithin(m.g, G_LIM as int)
    &&& MASS_MIN as int <= m.mass <= MASS_LIM as int
    &&& 0 <= m.motor_max_speed <= SPEED_LIM as int
    &&& 0 <= m.motor_max_force <= FORCE_LIM as int
    &&& 0 <= m.air_resistance_coefficient <= COEF_LIM as int
    &&& 0 <= m.air_density <= COEF_LIM as int
    &&& 0 <= m.frontal_area.x <= AREA_LIM as int
    &&& 0 <= m.frontal_area.y <= AREA_LIM as int
    &&& 0 <= m.frontal_area.z <= AREA_LIM as int
    &&& 0 <= m.input_throttle <= SCALE as int
    &&& -(SCALE as int) <= m.input_yaw <= SCALE as int
    &&& -(SCALE as int) <= m.input_pitch <= SCALE as int
    &&& -(SCALE as int) <= m.input_roll <= SCALE as int
    &&& vwithin(m.angular_velocity, ANG_LIM as int)
}

/// The state with its velocity replaced.
pub open spec fn sp_set_velocity(m: QuadV, v: V3) -> QuadV {
    QuadV {
        velocity: v,
        orientation: m.orientation,
        g: m.g,
        mass: m.mass,
        motor_max_speed: m.motor_max_speed,
        motor_max_force: m.motor_max_force,
        air_resistance_coefficient: m.air_resistance_coefficient,
        air_density: m.air_density,
        frontal_area: m.frontal_area,
        input_throttle: m.input_throttle,
        input_yaw: m.input_yaw,
        input_pitch: m.input_pitch,
        input_roll: m.input_roll,
        angular_velocity: m.angular_velocity,
    }
}

/// The state with its orientation replaced.
pub open spec fn sp_set_orientation(m: QuadV, o: Q4) -> QuadV {
    QuadV {
        velocity: m.velocity,
        orientation: o,
        g: m.g,
        mass: m.mass,
        motor_max_speed: m.motor_max_speed,
        motor_max_force: m.motor_max_force,
        air_resistance_coefficient: m.air_resistance_coefficient,
        air_density: m.air_density,
        frontal_area: m.frontal_area,
        input_throttle: m.input_throttle,
        input_yaw: m.input_yaw,
        input_pitch: m.input_pitch,
        input_roll: m.input_roll,
        angular_velocity: m.angular_velocity,
    }
}

/// The state with its pilot input replaced.
pub open spec fn sp_with_input(m: QuadV, t: int, y: int, p: int, r: int) -> QuadV {
    QuadV {
        velocity: m.velocity,
        orientation: m.orientation,
        g: m.g,
        mass: m.mass,
        motor_max_speed: m.motor_max_speed,
        motor_max_force: m.motor_max_force,
        air_resistance_coefficient: m.air_resistance_coefficient,
        air_density: m.air_density,
        frontal_area: m.frontal_area,
        input_throttle: t,
        input_yaw: y,
        input_pitch: p,
        input_roll: r,
        angular_velocity: m.angular_velocity,
    }
}

/// Drag: `0.5 * C * rho * S * v^2` opposite the velocity direction, where
/// the effective frontal area `S` projects the unit velocity onto the three
/// rotated body axes. Zero velocity gives zero drag.
pub open spec fn sp_air_resistance(m: QuadV) -> V3 {
    let n2 = sp_len2(m.velocity);
    if n2 == 0 {
        v3_zero()
    } else {
        let len = sp_sqrt(n2);
        let u = V3 {
            x: tdiv(m.velocity.x * (SCALE as int), len),
            y: tdiv(m.velocity.y * (SCALE as int), len),
            z: tdiv(m.velocity.z * (SCALE as int), len),
        };
        let xw = sp_rotate(m.orientation, v3(SCALE as int, 0, 0));
        let yw = sp_rotate(m.orientation, v3(0, SCALE as int, 0));
        let zw = sp_rotate(m.orientation, v3(0, 0, SCALE as int));
        let area = sp_fmul(m.frontal_area.x, sp_dot3(u, xw)) + sp_fmul(
            m.frontal_area.y,
            sp_dot3(u, yw),
        ) + sp_fmul(m.frontal_area.z, sp_dot3(u, zw));
        let k1 = sp_fmul(m.air_resistance_coefficient, m.air_density);
        let k2 = sp_fmul(k1, area);
        let v2 = tdiv(n2, SCALE as int);
        let k3 = sp_fmul(k2, v2);
        let k4 = tdiv(k3, 2);
        sp_scale3(sp_neg3(u), k4)
    }
}

/// Thrust: the rotated body-up axis scaled by the clamped throttle times the
/// largest motor force.
pub open spec fn sp_engine_force(m: QuadV) -> V3 {
    let up = sp_rotate(m.orientation, v3(0, SCALE as int, 0));
    let th = sp_clamp(m.input_throttle, 0, SCALE as int);
    let sc = sp_fmul(th, m.motor_max_force);
    sp_scale3(up, sc)
}

/// Drag plus thrust.
pub open spec fn sp_total_force(m: QuadV) -> V3 {
    sp_add3(sp_air_resistance(m), sp_engine_force(m))
}

/// Acceleration: total force over mass, plus gravity.
pub open spec fn sp_acceleration(m: QuadV) -> V3 {
    let f = sp_total_force(m);
    V3 {
        x: sp_fdiv(f.x, m.mass) + m.g.x,
        y: sp_fdiv(f.y, m.mass) + m.g.y,
        z: sp_fdiv(f.z, m.mass) + m.g.z,
    }
}

/// Forward-Euler velocity update, saturating at the working range.
pub open spec fn sp_update_v(m: QuadV, dt: int) -> QuadV {
    let a = sp_acceleration(m);
    let v = m.velocity;
    sp_set_velocity(
        m,
        V3 {
            x: sp_clamp(v.x + sp_fmul(a.x, dt), -(V_LIM as int), V_LIM as int),
            y: sp_clamp(v.y + sp_fmul(a.y, dt), -(V_LIM as int), V_LIM as int),
            z: sp_clamp(v.z + sp_fmul(a.z, dt), -(V_LIM as int), V_LIM as int),
        },
    )
}

/// Orientation update: compose yaw, then pitch, then roll increments about
/// the rotated body axes, and restore a near-unit norm. A drift beyond
/// `QTOL` renormalizes; a degenerate composition (norm under one quarter)
/// keeps the previous orientation.
pub open spec fn sp_update_orientation(m: QuadV, dt: int) -> QuadV {
    let o = m.orientation;
    let ya = sp_fmul(sp_fmul(m.angular_velocity.x, m.input_yaw), dt);
    let pa = sp_fmul(sp_fmul(m.angular_velocity.y, m.input_pitch), dt);
    let ra = sp_fmul(sp_fmul(m.angular_velocity.z, m.input_roll), dt);
    let xw = sp_rotate(o, v3(SCALE as int, 0, 0));
    let yw = sp_rotate(o, v3(0, SCALE as int, 0));
    let zw = sp_rotate(o, v3(0, 0, SCALE as int));
    let yq = sp_axis_angle(yw, ya);
    let pq = sp_axis_angle(zw, pa);
    let rq = sp_axis_angle(xw, ra);
    let o3 = sp_qmul(rq, sp_qmul(pq, sp_qmul(yq, o)));
    let n2 = sp_norm2q(o3);
    let onew = if (SCALE2 as int) - (QTOL as int) <= n2 <= (SCALE2 as int) + (QTOL as int) {
        o3
    } else if n2 >= NORM2_LO as int {
        sp_renorm(o3)
    } else {
        o
    };
    sp_set_orientation(m, onew)
}

/// One physics tick: velocity first, then orientation, both over the same
/// timestep.
pub open spec fn sp_step(m: QuadV, dt: int) -> QuadV {
    sp_update_orientation(sp_update_v(m, dt), dt)
}

/// A squared norm within the drift tolerance bounds every component.
proof fn lemma_comps_from_norm(q: Q4)
    requires
        sp_norm2q(q) <= (SCALE2 as int) + (QTOL as int),
    ensures
        qwithin(q, (SCALE as int) + 1000),
{
    assert(q.x * q.x >= 0 && q.y * q.y >= 0 && q.z * q.z >= 0 && q.w * q.w >= 0)
        by (nonlinear_arith);
    let b = (SCALE as int) + 999;
    assert((SCALE2 as int) + (QTOL as int) < (b + 1) * (b + 1)) by (nonlinear_arith)
        requires
            b == (SCALE as int) + 999,
            SCALE == 1_000_000_000i128,
            SCALE2 == 1_000_000_000_000_000_000i128,
            QTOL == 1_000_000_000_000i128,
    ;
    lemma_sq_le_implies_le(q.x, b, sp_norm2q(q));
    lemma_sq_le_implies_le(q.y, b, sp_norm2q(q));
    lemma_sq_le_implies_le(q.z, b, sp_norm2q(q));
    lemma_sq_le_implies_le(q.w, b, sp_norm2q(q));
}

impl Quadrotor {
    /// Well-formedness of this vehicle's state.
    pub open spec fn wf(&self) -> bool {
        sp_wf(self@)
    }

    /// Build a vehicle with the given configuration, zero velocity, identity
    /// orientation, standard gravity and air density, full angular rates,
    /// and zero input.
    pub fn new(
        mass: i128,
        motor_max_speed: i128,
        motor_max_force: i128,
        air_resistance_coefficient: i128,
        frontal_area_xyz: (i128, i128, i128),
    ) -> (r: Quadrotor)
        requires
            MASS_MIN as int <= mass <= MASS_LIM as int,
            0 <= motor_max_speed <= SPEED_LIM as int,
            0 <= motor_max_force <= FORCE_LIM as int,
            0 <= air_resistance_coefficient <= COEF_LIM as int,
            0 <= frontal_area_xyz.0 <= AREA_LIM as int,
            0 <= frontal_area_xyz.1 <= AREA_LIM as int,
            0 <= frontal_area_xyz.2 <= AREA_LIM as int,
        ensures
            r.wf(),
            r@.velocity == v3_zero(),
            r@.orientation == sp_qident(),
            r@.g == v3(0, -9_800_000_000, 0),
            r@.mass == mass as int,
            r@.motor_max_speed == motor_max_speed as int,
            r@.motor_max_force == motor_max_force as int,
            r@.air_resistance_coefficient == air_resistance_coefficient as int,
            r@.air_density == 1_290_000_000,
            r@.frontal_area == v3(
                frontal_area_xyz.0 as int,
                frontal_area_xyz.1 as int,
                frontal_area_xyz.2 as int,
            ),
            r@.input_throttle == 0,
            r@.input_yaw == 0,
            r@.input_pitch == 0,
            r@.input_roll == 0,
            r@.angular_velocity == v3(6_283_185_306, 6_283_185_306, 6_283_185_306),
    {
        Quadrotor {
            velocity: Vec3::zero(),
            orientation: Quat::identity(),
            g: Vec3::new(0, -9_800_000_000, 0),
            mass,
            motor_max_speed,
            motor_max_force,
            air_resistance_coefficient,
            air_density: 1_290_000_000,
            frontal_area_xyz,
            last_input: (0, 0, 0, 0),
            angular_velocity: (2 * PI, 2 * PI, 2 * PI),
        }
    }

    /// Overwrite the pilot input and return the stored tuple. Throttle must
    /// already be normalized into [0, 1] and the axes into [-1, 1]; this is
    /// a pure field overwrite.
    pub fn update_input(&mut self, throttle: i128, yaw: i128, pitch: i128, roll: i128) -> (r: (
        i128,
        i128,
        i128,
        i128,
    ))
        requires
            0 <= throttle <= SCALE as int,
            -(SCALE as int) <= yaw <= SCALE as int,
            -(SCALE as int) <= pitch <= SCALE as int,
            -(SCALE as int) <= roll <= SCALE as int,
        ensures
            final(self)@ == sp_with_input(
                old(self)@,
                throttle as int,
                yaw as int,
                pitch as int,
                roll as int,
            ),
            r == (throttle, yaw, pitch, roll),
            old(self).wf() ==> final(self).wf(),
    {
        self.last_input = (throttle, yaw, pitch, roll);
        self.last_input
    }

    /// Overwrite the pilot input from a (throttle, yaw, pitch, roll) tuple.
    pub fn update_input_typr(&mut self, typr: (i128, i128, i128, i128))
        requires
            0 <= typr.0 <= SCALE as int,
            -(SCALE as int) <= typr.1 <= SCALE as int,
            -(SCALE as int) <= typr.2 <= SCALE as int,
            -(SCALE as int) <= typr.3 <= SCALE as int,
        ensures
            final(self)@ == sp_with_input(
                old(self)@,
                typr.0 as int,
                typr.1 as int,
                typr.2 as int,
                typr.3 as int,
            ),
            old(self).wf() ==> final(self).wf(),
    {
        self.last_input = typr;
    }

    /// Drag force from the current velocity and attitude; zero at zero
    /// velocity.
    pub fn caculate_air_resistance(&self) -> (r: Vec3)
        requires
            self.wf(),
        ensures
            r@ == sp_air_resistance(self@),
            vwithin(r@, DRAG_LIM as int),
            self@.velocity == v3_zero() ==> r@ == v3_zero(),
    {
        proof {
            // The degenerate branch below triggers exactly on the zero
            // vector.
            lemma_len2_zero(self@.velocity);
            lemma_fmul_le(self@.velocity.x, self@.velocity.x, V_LIM as int, V_LIM as int);
            lemma_fmul_le(self@.velocity.y, self@.velocity.y, V_LIM as int, V_LIM as int);
            lemma_fmul_le(self@.velocity.z, self@.velocity.z, V_LIM as int, V_LIM as int);
            assert(self@.velocity.x * self@.velocity.x >= 0 && self@.velocity.y
                * self@.velocity.y >= 0 && self@.velocity.z * self@.velocity.z >= 0)
                by (nonlinear_arith);
        }
        let vx = self.velocity.x;
        let vy = self.velocity.y;
        let vz = self.velocity.z;
        let n2: i128 = vx * vx + vy * vy + vz * vz;
        if n2 == 0 {
            return Vec3::zero();
        }
        proof {
            assert((n2 as u128) as int == n2 as int);
        }
        let nu: u128 = isqrt(n2 as u128);
        proof {
            assert(nu >= 1) by (nonlinear_arith)
                requires
                    ((n2 as u128) as int) < (((nu as int) + 1) * ((nu as int) + 1)),
                    ((n2 as u128) as int) == n2 as int,
                    n2 as int >= 1,
                    0 <= nu,
            ;
            assert(nu <= 2_000_000_000_000u128) by (nonlinear_arith)
                requires
                    (nu as int) * (nu as int) <= (n2 as u128) as int,
                    ((n2 as u128) as int) == n2 as int,
                    n2 as int <= 3_000_000_000_000_000_000_000_000,
                    0 <= nu,
            ;
        }
        let len: i128 = nu as i128;
        proof {
            lemma_sq_le_implies_le(vx as int, len as int, n2 as int);
            lemma_sq_le_implies_le(vy as int, len as int, n2 as int);
            lemma_sq_le_implies_le(vz as int, len as int, n2 as int);
            lemma_unit_div(vx as int, len as int);
            lemma_unit_div(vy as int, len as int);
            lemma_unit_div(vz as int, len as int);
            lemma_fmul_le(vx as int, SCALE as int, V_LIM as int, SCALE as int);
            lemma_fmul_le(vy as int, SCALE as int, V_LIM as int, SCALE as int);
            lemma_fmul_le(vz as int, SCALE as int, V_LIM as int, SCALE as int);
        }
        let u = Vec3 {
            x: tdiv_pos(vx * SCALE, len),
            y: tdiv_pos(vy * SCALE, len),
            z: tdiv_pos(vz * SCALE, len),
        };
        let xw = self.orientation.mul_vec3(Vec3::new(SCALE, 0, 0));
        let yw = self.orientation.mul_vec3(Vec3::new(0, SCALE, 0));
        let zw = self.orientation.mul_vec3(Vec3::new(0, 0, SCALE));
        proof {
            lemma_dot3_le(u@, xw@, SCALE as int, ROTB as int);
            lemma_dot3_le(u@, yw@, SCALE as int, ROTB as int);
            lemma_dot3_le(u@, zw@, SCALE as int, ROTB as int);
        }
        let dx = u.dot3(xw, Ghost(ROTB as int));
        let dy = u.dot3(yw, Ghost(ROTB as int));
        let dz = u.dot3(zw, Ghost(ROTB as int));
        proof {
            lemma_fmul_le(self@.frontal_area.x, dx as int, AREA_LIM as int, 390_000_000_000int);
            lemma_fmul_le(self@.frontal_area.y, dy as int, AREA_LIM as int, 390_000_000_000int);
            lemma_fmul_le(self@.frontal_area.z, dz as int, AREA_LIM as int, 390_000_000_000int);
        }
        let area: i128 = fmul(self.frontal_area_xyz.0, dx) + fmul(self.frontal_area_xyz.1, dy)
            + fmul(self.frontal_area_xyz.2, dz);
        proof {
            lemma_fmul_le(
                self@.air_resistance_coefficient,
                self@.air_density,
                COEF_LIM as int,
                COEF_LIM as int,
            );
        }
        let k1 = fmul(self.air_resistance_coefficient, self.air_density);
        proof {
            lemma_fmul_le(k1 as int, area as int, 100_000_000_000int, 11_700_000_000_000int);
            lemma_tdiv_abs(n2 as int, SCALE as int, 3_000_000_000_000_000_000_000_000int);
        }
        let k2 = fmul(k1, area);
        let v2 = tdiv_pos(n2, SCALE);
        proof {
            lemma_fmul_le(
                k2 as int,
                v2 as int,
                1_170_000_000_000_000int,
                3_000_000_000_000_000int,
            );
        }
        let k3 = fmul(k2, v2);
        proof {
            lemma_tdiv_abs(k3 as int, 2, 3_510_000_000_000_000_000_000int);
        }
        let k4 = tdiv_pos(k3, 2);
        let un = u.neg3();
        proof {
            lemma_fmul_le(un@.x, k4 as int, SCALE as int, 1_755_000_000_000_000_000_000int);
            lemma_fmul_le(un@.y, k4 as int, SCALE as int, 1_755_000_000_000_000_000_000int);
            lemma_fmul_le(un@.z, k4 as int, SCALE as int, 1_755_000_000_000_000_000_000int);
        }
        un.scale3(k4)
    }

    /// Thrust along the rotated body-up axis; throttle is clamped into
    /// [0, 1] defensively before scaling.
    pub fn caculate_engine_force(&self) -> (r: Vec3)
        requires
            self.wf(),
        ensures
            r@ == sp_engine_force(self@),
            vwithin(r@, ENG_LIM as int),
    {
        let up = self.orientation.mul_vec3(Vec3::new(0, SCALE, 0));
        let th = clamp(self.last_input.0, 0, SCALE);
        proof {
            lemma_fmul_le(th as int, self@.motor_max_force, SCALE as int, FORCE_LIM as int);
        }
        let sc = fmul(th, self.motor_max_force);
        proof {
            lemma_fmul_le(up@.x, sc as int, ROTB as int, FORCE_LIM as int);
            lemma_fmul_le(up@.y, sc as int, ROTB as int, FORCE_LIM as int);
            lemma_fmul_le(up@.z, sc as int, ROTB as int, FORCE_LIM as int);
        }
        up.scale3(sc)
    }

    /// Drag plus thrust.
    pub fn caculate_total_force_except_g(&self) -> (r: Vec3)
        requires
            self.wf(),
        ensures
            r@ == sp_total_force(self@),
            vwithin(r@, TOT_LIM as int),
    {
        let d = self.caculate_air_resistance();
        let e = self.caculate_engine_force();
        d.add3(e)
    }

    /// Acceleration: total force over mass, plus gravity.
    pub fn caculate_acceleration(&self) -> (r: Vec3)
        requires
            self.wf(),
        ensures
            r@ == sp_acceleration(self@),
            vwithin(r@, ACC_LIM as int),
    {
        let f = self.caculate_total_force_except_g();
        proof {
            lemma_fmul_le(f@.x, SCALE as int, TOT_LIM as int, SCALE as int);
            lemma_fmul_le(f@.y, SCALE as int, TOT_LIM as int, SCALE as int);
            lemma_fmul_le(f@.z, SCALE as int, TOT_LIM as int, SCALE as int);
            lemma_fdiv_le(f@.x, self@.mass, TOT_LIM as int, MASS_MIN as int);
            lemma_fdiv_le(f@.y, self@.mass, TOT_LIM as int, MASS_MIN as int);
            lemma_fdiv_le(f@.z, self@.mass, TOT_LIM as int, MASS_MIN as int);
        }
        Vec3 {
            x: fdivp(f.x, self.mass) + self.g.x,
            y: fdivp(f.y, self.mass) + self.g.y,
            z: fdivp(f.z, self.mass) + self.g.z,
        }
    }

    /// Advance the velocity by one forward-Euler step of `dur` seconds,
    /// saturating at the working range.
    pub fn update_v(&mut self, dur: i128)
        requires
            old(self).wf(),
            0 <= dur <= DT_LIM as int,
        ensures
            final(self)@ == sp_update_v(old(self)@, dur as int),
            final(self).wf(),
    {
        let a = self.caculate_acceleration();
        proof {
            lemma_fmul_le(a@.x, dur as int, ACC_LIM as int, DT_LIM as int);
            lemma_fmul_le(a@.y, dur as int, ACC_LIM as int, DT_LIM as int);
            lemma_fmul_le(a@.z, dur as int, ACC_LIM as int, DT_LIM as int);
        }
        let dvx = fmul(a.x, dur);
        let dvy = fmul(a.y, dur);
        let dvz = fmul(a.z, dur);
        self.velocity = Vec3 {
            x: clamp(self.velocity.x + dvx, -V_LIM, V_LIM),
            y: clamp(self.velocity.y + dvy, -V_LIM, V_LIM),
            z: clamp(self.velocity.z + dvz, -V_LIM, V_LIM),
        };
    }

    /// Advance the orientation by one tick: yaw, pitch and roll increments
    /// about the rotated body axes, composed in that order, then brought
    /// back to a near-unit norm.
    pub fn update_orientation(&mut self, dur: i128)
        requires
            old(self).wf(),
            0 <= dur <= DT_LIM as int,
        ensures
            final(self)@ == sp_update_orientation(old(self)@, dur as int),
            final(self).wf(),
    {
        proof {
            lemma_fmul_le(
                self@.angular_velocity.x,
                self@.input_yaw,
                ANG_LIM as int,
                SCALE as int,
            );
            lemma_fmul_le(
                self@.angular_velocity.y,
                self@.input_pitch,
                ANG_LIM as int,
                SCALE as int,
            );
            lemma_fmul_le(
                self@.angular_velocity.z,
                self@.input_roll,
                ANG_LIM as int,
                SCALE as int,
            );
        }
        let yr = fmul(self.angular_velocity.0, self.last_input.1);
        let pr = fmul(self.angular_velocity.1, self.last_input.2);
        let rr = fmul(self.angular_velocity.2, self.last_input.3);
        proof {
            lemma_fmul_le(yr as int, dur as int, ANG_LIM as int, DT_LIM as int);
            lemma_fmul_le(pr as int, dur as int, ANG_LIM as int, DT_LIM as int);
            lemma_fmul_le(rr as int, dur as int, ANG_LIM as int, DT_LIM as int);
        }
        let ya = fmul(yr, dur);
        let pa = fmul(pr, dur);
        let ra = fmul(rr, dur);
        let xw = self.orientation.mul_vec3(Vec3::new(SCALE, 0, 0));
        let yw = self.orientation.mul_vec3(Vec3::new(0, SCALE, 0));
        let zw = self.orientation.mul_vec3(Vec3::new(0, 0, SCALE));
        let yq = Quat::from_axis_angle(yw, ya);
        let pq = Quat::from_axis_angle(zw, pa);
        let rq = Quat::from_axis_angle(xw, ra);
        proof {
            lemma_qmul_bound(yq@, self@.orientation, AXISQ_B as int, 2 * (SCALE as int));
        }
        let o1 = yq.mul_quat(self.orientation);
        proof {
            lemma_qmul_bound(pq@, o1@, AXISQ_B as int, 2_400_000_000_000int);
        }
        let o2 = pq.mul_quat(o1);
        proof {
            lemma_qmul_bound(rq@, o2@, AXISQ_B as int, 2_880_000_000_000_000int);
        }
        let o3 = rq.mul_quat(o2);
        let n2 = o3.norm2();
        let onew: Quat = if SCALE2 - QTOL <= n2 && n2 <= SCALE2 + QTOL {
            proof {
                lemma_comps_from_norm(o3@);
            }
            o3
        } else if n2 >= NORM2_LO {
            o3.renormalized()
        } else {
            self.orientation
        };
        self.orientation = onew;
    }

    /// One physics tick of `dur` seconds: integrate velocity, then
    /// orientation. A zero timestep leaves the state exactly unchanged.
    pub fn update_phy(&mut self, dur: i128)
        requires
            old(self).wf(),
            0 <= dur <= DT_LIM as int,
        ensures
            final(self)@ == sp_step(old(self)@, dur as int),
            final(self).wf(),
            dur == 0 ==> final(self)@ == old(self)@,
    {
        self.update_v(dur);
        self.update_orientation(dur);
        proof {
            if dur == 0 {
                lemma_zero_timestep(old(self)@);
            }
        }
    }
}

impl Default for Quadrotor {
    /// The reference configuration: half a kilogram, ten newtons of thrust,
    /// one full turn per second on every axis.
    fn default() -> (r: Quadrotor)
        ensures
            r.wf(),
            r@.velocity == v3_zero(),
            r@.orientation == sp_qident(),
            r@.g == v3(0, -9_800_000_000, 0),
            r@.mass == 500_000_000,
            r@.motor_max_speed == 25_000_000_000,
            r@.motor_max_force == 10_000_000_000,
            r@.air_resistance_coefficient == 1_000_000_000,
            r@.air_density == 1_290_000_000,
            r@.frontal_area == v3(10_000_000, 40_000_000, 10_000_000),
            r@.input_throttle == 0,
            r@.input_yaw == 0,
            r@.input_pitch == 0,
            r@.input_roll == 0,
            r@.angular_velocity == v3(6_283_185_306, 6_283_185_306, 6_283_185_306),
    {
        Quadrotor::new(
            500_000_000,
            25_000_000_000,
            10_000_000_000,
            1_000_000_000,
            (10_000_000, 40_000_000, 10_000_000),
        )
    }
}

/// A zero timestep is a no-op: velocity and orientation are exactly
/// unchanged.
pub proof fn lemma_zero_timestep(m: QuadV)
    requires
        sp_wf(m),
    ensures
        sp_step(m, 0) == m,
{
    let a = sp_acceleration(m);
    lemma_fmul_zero(a.x);
    lemma_fmul_zero(a.y);
    lemma_fmul_zero(a.z);
    assert(sp_update_v(m, 0) == m);
    let o = m.orientation;
    lemma_fmul_zero(sp_fmul(m.angular_velocity.x, m.input_yaw));
    lemma_fmul_zero(sp_fmul(m.angular_velocity.y, m.input_pitch));
    lemma_fmul_zero(sp_fmul(m.angular_velocity.z, m.input_roll));
    let xw = sp_rotate(o, v3(SCALE as int, 0, 0));
    let yw = sp_rotate(o, v3(0, SCALE as int, 0));
    let zw = sp_rotate(o, v3(0, 0, SCALE as int));
    lemma_fmul_zero(0);
    lemma_fmul_zero(xw.x);
    lemma_fmul_zero(xw.y);
    lemma_fmul_zero(xw.z);
    lemma_fmul_zero(yw.x);
    lemma_fmul_zero(yw.y);
    lemma_fmul_zero(yw.z);
    lemma_fmul_zero(zw.x);
    lemma_fmul_zero(zw.y);
    lemma_fmul_zero(zw.z);
    assert(sp_axis_angle(yw, 0) == sp_qident());
    assert(sp_axis_angle(zw, 0) == sp_qident());
    assert(sp_axis_angle(xw, 0) == sp_qident());
    lemma_qmul_identity(o);
    assert(sp_update_orientation(m, 0) == m);
}

/// The orientation of a well-formed vehicle is a unit quaternion to within
/// one millionth: its norm is within `SCALE / 1_000_000` of `SCALE`.
pub proof fn lemma_orientation_near_unit(m: QuadV)
    requires
        sp_wf(m),
    ensures
        (SCALE as int) - 1000 <= sp_sqrt(sp_norm2q(m.orientation)) <= (SCALE as int) + 1000,
{
    let n2 = sp_norm2q(m.orientation);
    crate::fx::lemma_sqrt_bracket(n2);
    crate::fx::lemma_sqrt_upper(n2, (SCALE as int) + 1000);
    let n = sp_sqrt(n2);
    assert(n >= (SCALE as int) - 1000) by (nonlinear_arith)
        requires
            0 <= n,
            n2 < (n + 1) * (n + 1),
            n2 >= (SCALE2 as int) - (QTOL as int),
            SCALE == 1_000_000_000i128,
            SCALE2 == 1_000_000_000_000_000_000i128,
            QTOL == 1_000_000_000_000i128,
    ;
}

/// One pilot command and the timestep of the tick that follows it.
pub struct TickCmd {
    pub throttle: int,
    pub yaw: int,
    pub pitch: int,
    pub roll: int,
    pub dt: int,
}

/// Run a sequence of commands: each tick stores the input, then steps the
/// physics.
pub open spec fn sp_run(m: QuadV, cs: Seq<TickCmd>) -> QuadV
    decreases cs.len(),
{
    if cs.len() == 0 {
        m
    } else {
        sp_run(
            sp_step(
                sp_with_input(m, cs[0].throttle, cs[0].yaw, cs[0].pitch, cs[0].roll),
                cs[0].dt,
            ),
            cs.drop_first(),
        )
    }
}

/// Determinism: two vehicles with equal states driven by the same command
/// sequence stay equal. Each tick of the executable code equals `sp_step`
/// of its inputs, so two equally configured vehicles fed the same inputs
/// and timesteps produce identical trajectories.
pub proof fn lemma_run_deterministic(m1: QuadV, m2: QuadV, cs: Seq<TickCmd>)
    requires
        m1 == m2,
    ensures
        sp_run(m1, cs) == sp_run(m2, cs),
{
}

} // verus!
