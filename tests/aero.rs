use aerodynamics::aero::{AeroBody, AirState, Frame, RigidBody, StandardDensity, WindModel, DensityModel};
use aerodynamics::constantwind::ConstantWind;
use aerodynamics::effectors::{AeroEffect, AffectedBody};
use aerodynamics::powerwind::PowerWind;
use aerodynamics::scalar::{Matrix3, Quaternion, Real, StateVector, Vector3};
use approx::{AbsDiffEq, RelativeEq};

#[derive(Clone, Copy, Debug, PartialEq)]
struct F(f64);

impl Real for F {
    fn spec_from_ratio(num: i64, den: i64) -> Self { F(num as f64 / den as f64) }
    fn spec_plus(self, rhs: Self) -> Self { F(self.0 + rhs.0) }
    fn spec_minus(self, rhs: Self) -> Self { F(self.0 - rhs.0) }
    fn spec_times(self, rhs: Self) -> Self { F(self.0 * rhs.0) }
    fn spec_divide(self, rhs: Self) -> Self { F(self.0 / rhs.0) }
    fn spec_sqrt(self) -> Self { F(self.0.sqrt()) }
    fn spec_atan2(self, x: Self) -> Self { F(self.0.atan2(x.0)) }
    fn spec_asin(self) -> Self { F(self.0.asin()) }
    fn spec_powf(self, e: Self) -> Self { F(self.0.powf(e.0)) }
    fn spec_sin(self) -> Self { F(self.0.sin()) }
    fn spec_cos(self) -> Self { F(self.0.cos()) }
    fn spec_to_radians(self) -> Self { F(self.0.to_radians()) }
    fn spec_is_zero(self) -> bool { self.0 == 0.0 }
    fn from_ratio(num: i64, den: i64) -> Self { Self::spec_from_ratio(num, den) }
    fn plus(self, rhs: Self) -> Self { self.spec_plus(rhs) }
    fn minus(self, rhs: Self) -> Self { self.spec_minus(rhs) }
    fn times(self, rhs: Self) -> Self { self.spec_times(rhs) }
    fn divide(self, rhs: Self) -> Self { self.spec_divide(rhs) }
    fn sqrt(self) -> Self { self.spec_sqrt() }
    fn atan2(self, x: Self) -> Self { self.spec_atan2(x) }
    fn asin(self) -> Self { self.spec_asin() }
    fn powf(self, e: Self) -> Self { self.spec_powf(e) }
    fn sin(self) -> Self { self.spec_sin() }
    fn cos(self) -> Self { self.spec_cos() }
    fn to_radians(self) -> Self { self.spec_to_radians() }
    fn is_zero(self) -> bool { self.spec_is_zero() }
}

fn close(a: f64, b: f64) -> bool {
    a.relative_eq(&b, f64::default_epsilon(), f64::default_max_relative())
}

fn v(x: f64, y: f64, z: f64) -> Vector3<F> {
    Vector3::new(F(x), F(y), F(z))
}

/// A body that does not move by itself and records the loads it was stepped with.
#[derive(Clone)]
struct TestBody {
    state: StateVector<F>,
    dcm: Matrix3<F>,
    loads: Vec<(Vec<Vector3<F>>, Vec<Vector3<F>>, f64)>,
}

impl RigidBody<F> for TestBody {
    fn spec_state(&self) -> StateVector<F> { self.state }
    fn spec_dcm(&self) -> Matrix3<F> { self.dcm }
    fn spec_acceleration(&self) -> Vector3<F> { v(0.0, 0.0, 0.0) }
    fn spec_velocity_in_frame(&self, frame: Frame) -> Vector3<F> {
        match frame {
            Frame::Body => self.state.velocity,
            Frame::World => {
                let d = self.dcm;
                let u = self.state.velocity;
                Vector3::new(
                    F(d.r0.x.0 * u.x.0 + d.r1.x.0 * u.y.0 + d.r2.x.0 * u.z.0),
                    F(d.r0.y.0 * u.x.0 + d.r1.y.0 * u.y.0 + d.r2.y.0 * u.z.0),
                    F(d.r0.z.0 * u.x.0 + d.r1.z.0 * u.y.0 + d.r2.z.0 * u.z.0),
                )
            }
        }
    }
    fn spec_rates_in_frame(&self, _frame: Frame) -> Vector3<F> { self.state.rates }
    fn spec_step(self, forces: Vec<Vector3<F>>, torques: Vec<Vector3<F>>, delta_t: F) -> Self {
        let mut b = self;
        b.loads.push((forces, torques, delta_t.0));
        b
    }
    fn statevector(&self) -> StateVector<F> { self.spec_state() }
    fn get_dcm(&self) -> Matrix3<F> { self.spec_dcm() }
    fn acceleration(&self) -> Vector3<F> { self.spec_acceleration() }
    fn velocity_in_frame(&self, frame: Frame) -> Vector3<F> { self.spec_velocity_in_frame(frame) }
    fn rates_in_frame(&self, frame: Frame) -> Vector3<F> { self.spec_rates_in_frame(frame) }
    fn step(&mut self, forces: &Vec<Vector3<F>>, torques: &Vec<Vector3<F>>, delta_t: F) {
        self.loads.push((forces.clone(), torques.clone(), delta_t.0));
    }
    fn set_state(&mut self, new_state: StateVector<F>) { self.state = new_state; }
}

fn identity() -> Matrix3<F> {
    Matrix3 { r0: v(1.0, 0.0, 0.0), r1: v(0.0, 1.0, 0.0), r2: v(0.0, 0.0, 1.0) }
}

fn body_at_rest(dcm: Matrix3<F>) -> TestBody {
    let state = StateVector {
        position: v(0.0, 0.0, 0.0),
        velocity: v(0.0, 0.0, 0.0),
        attitude: Quaternion { i: F(0.0), j: F(0.0), k: F(0.0), w: F(1.0) },
        rates: v(0.0, 0.0, 0.0),
    };
    TestBody { state, dcm, loads: Vec::new() }
}

fn airstate_in(wind: Vector3<F>) -> AirState<F> {
    let vehicle = AeroBody::with_wind_model(body_at_rest(identity()), ConstantWind::new(wind));
    vehicle.get_airstate()
}

const ISA: f64 = 1.225;

#[test]
fn test_zero() {
    let a = AeroBody::new(body_at_rest(identity())).get_airstate();
    assert!(close(a.airspeed.0, 0.0));
    assert!(close(a.q.0, 0.0));
    assert!(close(a.alpha.0, 0.0));
    assert!(close(a.beta.0, 0.0));
    let b = airstate_in(v(0.0, 0.0, 0.0));
    assert_eq!(b.airspeed.0, 0.0);
    assert_eq!(b.beta.0, 0.0);
}

#[test]
fn test_headwind() {
    let a = airstate_in(v(-1.0, 0.0, 0.0));
    assert!(close(a.airspeed.0, 1.0));
    assert!(close(a.q.0, 0.5 * ISA));
    assert!(close(a.q.0, 0.6125));
    assert!(close(a.alpha.0, 0.0));
    assert!(close(a.beta.0, 0.0));
}

#[test]
fn test_highwind() {
    let a = airstate_in(v(-20.0, 0.0, 0.0));
    assert!(close(a.airspeed.0, 20.0));
    assert!(close(a.q.0, 0.5 * ISA * 400.0));
    assert!(close(a.q.0, 245.0));
    assert!(close(a.alpha.0, 0.0));
    assert!(close(a.beta.0, 0.0));
}

#[test]
fn test_tailwind() {
    let a = airstate_in(v(1.0, 0.0, 0.0));
    assert!(close(a.airspeed.0, 1.0));
    assert!(close(a.q.0, 0.5 * ISA));
    assert!(close(a.alpha.0, 180.0f64.to_radians()));
    assert!(close(a.beta.0, 0.0));
}

#[test]
fn test_updraft() {
    let a = airstate_in(v(0.0, 0.0, -1.0));
    assert!(close(a.airspeed.0, 1.0));
    assert!(close(a.q.0, 0.5 * ISA));
    assert!(close(a.alpha.0, 90.0f64.to_radians()));
    assert!(close(a.beta.0, 0.0));
}

#[test]
fn test_crosswind() {
    let a = airstate_in(v(0.0, -1.0, 0.0));
    assert!(close(a.airspeed.0, 1.0));
    assert!(close(a.q.0, 0.5 * ISA));
    assert!(close(a.alpha.0, 0.0));
    assert!(close(a.beta.0, 90.0f64.to_radians()));
}

#[test]
fn test_sideslip() {
    let a = airstate_in(v(-1.0, 1.0, 0.0));
    assert!(close(a.airspeed.0, 2.0f64.sqrt()));
    assert!(close(a.q.0, 0.5 * ISA * 2.0));
    assert!(close(a.alpha.0, 0.0));
    assert!(close(a.beta.0, -45.0f64.to_radians()));
}

#[test]
fn airspeed_is_wind_norm_under_rotation() {
    // yawed a quarter turn: world north is body left
    let yaw = Matrix3 { r0: v(0.0, 1.0, 0.0), r1: v(-1.0, 0.0, 0.0), r2: v(0.0, 0.0, 1.0) };
    let vehicle = AeroBody::with_wind_model(body_at_rest(yaw), ConstantWind::new(v(3.0, 4.0, 0.0)));
    let a = vehicle.get_airstate();
    assert!(close(a.airspeed.0, 5.0));
    assert!(close(a.q.0, 0.5 * ISA * 25.0));
}

#[test]
fn custom_density_model_scales_q() {
    struct Thin;
    impl DensityModel<F> for Thin {
        fn spec_density(&self, _position: Vector3<F>) -> F { F(0.5) }
        fn get_density(&self, position: &Vector3<F>) -> F { self.spec_density(*position) }
    }
    let vehicle = AeroBody::with_density_model(
        body_at_rest(identity()),
        ConstantWind::new(v(-2.0, 0.0, 0.0)),
        Thin,
    );
    let a = vehicle.get_airstate();
    assert!(close(a.q.0, 0.5 * 0.5 * 4.0));
}

#[test]
fn standard_density_is_isa_sea_level() {
    let d: F = StandardDensity.get_density(&v(0.0, 0.0, -10000.0));
    assert_eq!(d.0, 1.225);
}

#[test]
fn test_constant() {
    let wind = v(3.5, -1.25, 0.75);
    let mut model = ConstantWind::new(wind);
    for p in [v(0.0, 0.0, 0.0), v(100.0, -20.0, -300.0), v(-1.0, 2.0, 3.0)] {
        let w = model.get_wind(&p);
        assert_eq!((w.x.0, w.y.0, w.z.0), (3.5, -1.25, 0.75));
        model.step(F(0.1));
    }
}

#[test]
fn test_powercalc() {
    const U_R: f64 = 10.0;
    const Z_R: f64 = 10.0;
    const ALPHA: f64 = 0.143;
    let wind_model = PowerWind::new(F(U_R), F(Z_R), F(0.0));
    for height_idx in 0..20 {
        let height = height_idx as f64 * 0.1;
        let expected_result = U_R * (height / Z_R).powf(ALPHA);
        let wind = wind_model.get_wind(&v(0.0, 0.0, height));
        assert!(close(wind.x.0, expected_result));
    }
}

#[test]
fn power_wind_at_reference_height_and_ground() {
    for alpha in [0.1, 0.143, 0.4] {
        let m = PowerWind::new_with_alpha(F(7.0), F(25.0), F(0.0), F(alpha));
        let w = m.get_wind(&v(0.0, 0.0, 25.0));
        assert_eq!((w.x.0, w.y.0, w.z.0), (7.0, 0.0, 0.0));
        let g = m.get_wind(&v(0.0, 0.0, 0.0));
        assert_eq!(g.x.0, 0.0);
        assert_eq!(g.z.0, 0.0);
    }
    let east = PowerWind::new(F(4.0), F(10.0), F(90.0));
    let w = east.get_wind(&v(5.0, 5.0, 10.0));
    assert!(w.x.0.abs() < 1e-12);
    assert!(close(w.y.0, 4.0));
    assert_eq!(w.z.0, 0.0);
    assert_eq!(PowerWind::new(F(1.0), F(1.0), F(0.0)).alpha.0, 0.143);
}

/// A lifting surface: force and torque grow with dynamic pressure and deflection.
struct Surface {
    lift: f64,
    arm: f64,
    channel: usize,
}

impl AeroEffect<F, [f64; 4]> for Surface {
    fn spec_effect(&self, airstate: AirState<F>, rates: Vector3<F>, input: [f64; 4]) -> (Vector3<F>, Vector3<F>) {
        let c = self.lift * (1.0 + input[self.channel]);
        let f = -airstate.q.0 * c;
        (v(0.1 * f, 0.0, f), v(rates.x.0, self.arm * f, 0.0))
    }
    fn get_effect(&self, airstate: AirState<F>, rates: Vector3<F>, input: [f64; 4]) -> (Vector3<F>, Vector3<F>) {
        self.spec_effect(airstate, rates, input)
    }
}

fn affected(effectors: Vec<Surface>) -> AffectedBody<F, TestBody, ConstantWind<F>, StandardDensity, [f64; 4], Surface> {
    let body = AeroBody::with_wind_model(body_at_rest(identity()), ConstantWind::new(v(-10.0, 0.0, 0.0)));
    AffectedBody::new(body, effectors)
}

#[test]
fn no_effectors_apply_zero_load() {
    let mut b = affected(Vec::new());
    b.step(F(0.01), [0.3, -0.2, 0.0, 1.0]);
    let loads = &b.body.body.loads;
    assert_eq!(loads.len(), 1);
    let (f, t, dt) = &loads[0];
    assert_eq!(f.len(), 1);
    assert_eq!((f[0].x.0, f[0].y.0, f[0].z.0), (0.0, 0.0, 0.0));
    assert_eq!((t[0].x.0, t[0].y.0, t[0].z.0), (0.0, 0.0, 0.0));
    assert_eq!(*dt, 0.01);
}

#[test]
fn effectors_are_summed() {
    let b = affected(vec![
        Surface { lift: 0.5, arm: 2.0, channel: 0 },
        Surface { lift: 0.25, arm: -1.0, channel: 1 },
    ]);
    let a = b.body.get_airstate();
    // q = 0.5 * 1.225 * 100 = 61.25
    let (f, t) = b.net_effect(a, v(0.0, 0.0, 0.0), [0.0, 1.0, 0.0, 0.0]);
    assert!(close(f.z.0, -61.25 * 0.5 - 61.25 * 0.5));
    assert!(close(t.y.0, 2.0 * -61.25 * 0.5 + -1.0 * -61.25 * 0.5));
}

#[test]
fn effector_order_does_not_change_net_load() {
    let input = [0.2, -0.4, 0.0, 0.0];
    let mut one = affected(vec![
        Surface { lift: 0.3, arm: 1.5, channel: 0 },
        Surface { lift: 0.7, arm: -0.5, channel: 1 },
    ]);
    let mut two = affected(vec![
        Surface { lift: 0.7, arm: -0.5, channel: 1 },
        Surface { lift: 0.3, arm: 1.5, channel: 0 },
    ]);
    one.step(F(0.02), input);
    two.step(F(0.02), input);
    let (f1, t1, _) = &one.body.body.loads[0];
    let (f2, t2, _) = &two.body.body.loads[0];
    assert_eq!(f1[0], f2[0]);
    assert_eq!(t1[0], t2[0]);

    let three = vec![
        Surface { lift: 0.1, arm: 1.0, channel: 0 },
        Surface { lift: 0.2, arm: 2.0, channel: 1 },
        Surface { lift: 0.3, arm: 3.0, channel: 2 },
    ];
    let reversed = vec![
        Surface { lift: 0.3, arm: 3.0, channel: 2 },
        Surface { lift: 0.2, arm: 2.0, channel: 1 },
        Surface { lift: 0.1, arm: 1.0, channel: 0 },
    ];
    let x = affected(three);
    let y = affected(reversed);
    let a = x.body.get_airstate();
    let (fx, tx) = x.net_effect(a, v(0.0, 0.0, 0.0), input);
    let (fy, ty) = y.net_effect(a, v(0.0, 0.0, 0.0), input);
    assert!(close(fx.z.0, fy.z.0));
    assert!(close(tx.y.0, ty.y.0));
}

#[test]
fn step_advances_and_passes_delta_t() {
    let mut b = affected(vec![Surface { lift: 1.0, arm: 0.0, channel: 3 }]);
    b.step(F(0.5), [0.0; 4]);
    b.step(F(0.25), [0.0; 4]);
    assert_eq!(b.body.body.loads.len(), 2);
    assert_eq!(b.body.body.loads[1].2, 0.25);
    // q = 61.25, lift 1.0
    assert!(close(b.body.body.loads[0].0[0].z.0, -61.25));
}

#[test]
fn state_accessors_pass_through() {
    let mut body = AeroBody::new(body_at_rest(identity()));
    let mut s = body.statevector();
    s.position = v(1.0, 2.0, -3.0);
    s.velocity = v(4.0, 0.0, 0.0);
    s.rates = v(0.0, 0.1, 0.0);
    body.set_state(s);
    assert_eq!(body.position(), v(1.0, 2.0, -3.0));
    assert_eq!(body.velocity_in_frame(Frame::Body), v(4.0, 0.0, 0.0));
    assert_eq!(body.rates_in_frame(Frame::Body), v(0.0, 0.1, 0.0));
    assert_eq!(body.attitude().w.0, 1.0);
    assert_eq!(body.acceleration(), v(0.0, 0.0, 0.0));
    let a = body.get_airstate();
    assert!(close(a.airspeed.0, 4.0));
    let ab = AffectedBody::<F, TestBody, ConstantWind<F>, StandardDensity, [f64; 4], Surface>::new(body, Vec::new());
    assert_eq!(ab.position(), v(1.0, 2.0, -3.0));
    assert_eq!(ab.statevector().velocity, v(4.0, 0.0, 0.0));
    assert_eq!(ab.velocity_in_frame(Frame::World), v(4.0, 0.0, 0.0));
}
