use vstd::prelude::*;
use crate::scalar::{Real, Vector3, Matrix3, Quaternion, StateVector, zero};
use crate::constantwind::ConstantWind;

verus! {

/// A source of wind, sampled at a world position (North-East-Down, m/s).
pub trait WindModel<T: Real>: Sized {
    /// The wind that the model gives at `position` in its current state.
    spec fn spec_wind(&self, position: Vector3<T>) -> Vector3<T>;

    /// The model after its time has advanced by `delta_t` seconds.
    spec fn spec_step(self, delta_t: T) -> Self;

    /// Returns the current wind at `position`, in world-frame coordinates.
    fn get_wind(&self, position: &Vector3<T>) -> (r: Vector3<T>)
        ensures
            r == self.spec_wind(*position),
    ;

    /// Advances the time of the model by `delta_t` seconds.
    fn step(&mut self, delta_t: T)
        ensures
            *final(self) == old(self).spec_step(delta_t),
    ;
}

/// A source of air density, sampled at a world position (kg/m^3).
pub trait DensityModel<T: Real>: Sized {
    /// The density that the model gives at `position`.
    spec fn spec_density(&self, position: Vector3<T>) -> T;

    /// Returns the current density at `position`.
    fn get_density(&self, position: &Vector3<T>) -> (r: T)
        ensures
            r == self.spec_density(*position),
    ;
}

/// The reference frame in which a vector is expressed.
#[derive(Clone, Copy, PartialEq, Eq, Structural)]
pub enum Frame {
    World,
    Body,
}

/// The rigid-body integrator that an [AeroBody] drives: it owns the
/// kinematic state and advances it under applied forces and torques.
pub trait RigidBody<T: Real>: Sized {
    /// The state vector: position, body-frame velocity, attitude, body rates.
    spec fn spec_state(&self) -> StateVector<T>;

    /// The direction-cosine matrix that takes world-frame vectors to the
    /// body frame.
    spec fn spec_dcm(&self) -> Matrix3<T>;

    /// The body-frame linear acceleration at the start of the previous step.
    spec fn spec_acceleration(&self) -> Vector3<T>;

    spec fn spec_velocity_in_frame(&self, frame: Frame) -> Vector3<T>;

    spec fn spec_rates_in_frame(&self, frame: Frame) -> Vector3<T>;

    /// The body after one step of `delta_t` seconds under the given loads.
    spec fn spec_step(self, forces: Vec<Vector3<T>>, torques: Vec<Vector3<T>>, delta_t: T) -> Self;

    fn statevector(&self) -> (r: StateVector<T>)
        ensures
            r == self.spec_state(),
    ;

    fn get_dcm(&self) -> (r: Matrix3<T>)
        ensures
            r == self.spec_dcm(),
    ;

    fn acceleration(&self) -> (r: Vector3<T>)
        ensures
            r == self.spec_acceleration(),
    ;

    fn velocity_in_frame(&self, frame: Frame) -> (r: Vector3<T>)
        ensures
            r == self.spec_velocity_in_frame(frame),
    ;

    fn rates_in_frame(&self, frame: Frame) -> (r: Vector3<T>)
        ensures
            r == self.spec_rates_in_frame(frame),
    ;

    /// Advances the body by `delta_t` seconds under `forces` and `torques`.
    fn step(&mut self, forces: &Vec<Vector3<T>>, torques: &Vec<Vector3<T>>, delta_t: T)
        ensures
            *final(self) == old(self).spec_step(*forces, *torques, delta_t),
    ;

    /// Replaces the state vector.
    fn set_state(&mut self, new_state: StateVector<T>)
        ensures
            final(self).spec_state() == new_state,
    ;
}

/// Numerator of the ISA sea-level air density, 1.225 kg/m^3.
pub const ISA_STANDARD_DENSITY_NUM: i64 = 1225;

/// Denominator of the ISA sea-level air density.
pub const ISA_STANDARD_DENSITY_DEN: i64 = 1000;

/// The ISA standard sea-level density, everywhere: density does not vary
/// with altitude in this model.
#[derive(Clone, Copy)]
pub struct StandardDensity;

impl<T: Real> DensityModel<T> for StandardDensity {
    open spec fn spec_density(&self, position: Vector3<T>) -> T {
        T::spec_from_ratio(ISA_STANDARD_DENSITY_NUM, ISA_STANDARD_DENSITY_DEN)
    }

    fn get_density(&self, position: &Vector3<T>) -> (r: T) {
        T::from_ratio(ISA_STANDARD_DENSITY_NUM, ISA_STANDARD_DENSITY_DEN)
    }
}

/// The aerodynamic state of a body.
#[derive(Clone, Copy)]
pub struct AirState<T> {
    /// Angle of attack (radians).
    pub alpha: T,
    /// Angle of sideslip (radians).
    pub beta: T,
    /// Airspeed (m/s).
    pub airspeed: T,
    /// Dynamic pressure (Pa).
    pub q: T,
}

/// The wind as the body meets it, on its own axes: its velocity less the
/// world wind rotated into the body frame by the direction-cosine matrix.
pub open spec fn relative_wind<T: Real>(velocity: Vector3<T>, dcm: Matrix3<T>, world_wind: Vector3<T>) -> Vector3<T> {
    velocity.spec_minus(dcm.spec_apply(world_wind))
}

/// The Euclidean norm of a vector.
pub open spec fn norm<T: Real>(v: Vector3<T>) -> T {
    v.x.spec_times(v.x).spec_plus(v.y.spec_times(v.y)).spec_plus(v.z.spec_times(v.z)).spec_sqrt()
}

/// The air state for relative wind `rel` (forward `x`, lateral `y`,
/// vertical `z`) in air of density `density`: airspeed is its norm, alpha is
/// `atan2(z, x)`, beta is `asin(y / airspeed)`, or zero where the airspeed is
/// zero, and `q = 0.5 * density * airspeed^2`.
pub open spec fn airstate_of<T: Real>(rel: Vector3<T>, density: T) -> AirState<T> {
    let airspeed = norm(rel);
    AirState {
        alpha: rel.z.spec_atan2(rel.x),
        beta: if airspeed.spec_is_zero() {
            zero::<T>()
        } else {
            rel.y.spec_divide(airspeed).spec_asin()
        },
        airspeed,
        q: T::spec_from_ratio(1, 2).spec_times(density).spec_times(airspeed.spec_times(airspeed)),
    }
}

/// A rigid body in an atmosphere: the body, the wind model and the density
/// model that it flies in.
pub struct AeroBody<T, B, W, D> {
    /// The underlying rigid body.
    pub body: B,
    /// The wind model.
    pub wind_model: W,
    /// The density model.
    pub density_model: D,
    /// Marks the scalar type of the body.
    pub scalar: core::marker::PhantomData<T>,
}

impl<T: Real, B: RigidBody<T>> AeroBody<T, B, ConstantWind<T>, StandardDensity> {
    /// Creates a body with no wind and the ISA standard sea-level density.
    pub fn new(body: B) -> (r: Self)
        ensures
            r.body == body,
            r.wind_model.spec_vector() == Vector3::<T>::spec_zeros(),
    {
        let wind_model = ConstantWind::new(Vector3::zeros());
        Self::with_wind_model(body, wind_model)
    }
}

impl<T: Real, B: RigidBody<T>, W: WindModel<T>> AeroBody<T, B, W, StandardDensity> {
    /// Creates a body with the given wind model and the ISA standard
    /// sea-level density.
    pub fn with_wind_model(body: B, wind_model: W) -> (r: Self)
        ensures
            r.body == body,
            r.wind_model == wind_model,
    {
        Self::with_density_model(body, wind_model, StandardDensity)
    }
}

impl<T: Real, B: RigidBody<T>, W: WindModel<T>, D: DensityModel<T>> AeroBody<T, B, W, D> {
    /// Creates a body with the given wind and density models.
    pub fn with_density_model(body: B, wind_model: W, density_model: D) -> (r: Self)
        ensures
            r.body == body,
            r.wind_model == wind_model,
            r.density_model == density_model,
    {
        AeroBody { body, wind_model, density_model, scalar: core::marker::PhantomData }
    }

    /// The air state of the body as it now stands.
    pub open spec fn spec_airstate(&self) -> AirState<T> {
        let position = self.body.spec_state().position;
        airstate_of(
            relative_wind(
                self.body.spec_state().velocity,
                self.body.spec_dcm(),
                self.wind_model.spec_wind(position),
            ),
            self.density_model.spec_density(position),
        )
    }

    /// Returns the current air state: the wind and the density are sampled
    /// at the body's position.
    pub fn get_airstate(&self) -> (r: AirState<T>)
        ensures
            r == self.spec_airstate(),
    {
        let state = self.body.statevector();
        let current_world_wind = self.wind_model.get_wind(&state.position);
        let dcm = self.body.get_dcm();
        let current_body_wind = state.velocity.minus(&dcm.apply(&current_world_wind));
        let u = current_body_wind.x;
        let v = current_body_wind.y;
        let w = current_body_wind.z;
        let airspeed = u.times(u).plus(v.times(v)).plus(w.times(w)).sqrt();
        let alpha = w.atan2(u);
        let beta = if airspeed.is_zero() {
            T::from_ratio(0, 1)
        } else {
            v.divide(airspeed).asin()
        };
        let density = self.density_model.get_density(&state.position);
        let q = T::from_ratio(1, 2).times(density).times(airspeed.times(airspeed));
        AirState { alpha, beta, airspeed, q }
    }

    /// Advances the wind model and the body by `delta_t` seconds under the
    /// given forces and torques.
    pub fn step(&mut self, forces: &Vec<Vector3<T>>, torques: &Vec<Vector3<T>>, delta_t: T)
        ensures
            final(self).wind_model == old(self).wind_model.spec_step(delta_t),
            final(self).body == old(self).body.spec_step(*forces, *torques, delta_t),
            final(self).density_model == old(self).density_model,
    {
        self.wind_model.step(delta_t);
        self.body.step(forces, torques, delta_t);
    }

    /// The body-frame acceleration at the start of the previous step.
    pub fn acceleration(&self) -> (r: Vector3<T>)
        ensures
            r == self.body.spec_acceleration(),
    {
        self.body.acceleration()
    }

    /// Replaces the state vector of the underlying body.
    pub fn set_state(&mut self, new_state: StateVector<T>)
        ensures
            final(self).body.spec_state() == new_state,
            final(self).wind_model == old(self).wind_model,
            final(self).density_model == old(self).density_model,
    {
        self.body.set_state(new_state);
    }

    /// The world position of the body.
    pub fn position(&self) -> (r: Vector3<T>)
        ensures
            r == self.body.spec_state().position,
    {
        self.body.statevector().position
    }

    /// The velocity of the body, expressed in `frame`.
    pub fn velocity_in_frame(&self, frame: Frame) -> (r: Vector3<T>)
        ensures
            r == self.body.spec_velocity_in_frame(frame),
    {
        self.body.velocity_in_frame(frame)
    }

    /// The attitude of the body.
    pub fn attitude(&self) -> (r: Quaternion<T>)
        ensures
            r == self.body.spec_state().attitude,
    {
        self.body.statevector().attitude
    }

    /// The angular rates of the body, expressed in `frame`.
    pub fn rates_in_frame(&self, frame: Frame) -> (r: Vector3<T>)
        ensures
            r == self.body.spec_rates_in_frame(frame),
    {
        self.body.rates_in_frame(frame)
    }

    /// The full state vector of the body.
    pub fn statevector(&self) -> (r: StateVector<T>)
        ensures
            r == self.body.spec_state(),
    {
        self.body.statevector()
    }
}

/// Facts of exact arithmetic about zero: anything times zero is zero, zero
/// plus or minus zero is zero, the square root of zero is zero, the angle of
/// the zero vector is taken as zero, and zero is zero.
pub open spec fn zero_laws<T: Real>() -> bool {
    let z = zero::<T>();
    &&& forall|x: T| #[trigger] x.spec_times(z) == z
    &&& z.spec_plus(z) == z
    &&& z.spec_minus(z) == z
    &&& z.spec_sqrt() == z
    &&& z.spec_atan2(z) == z
    &&& z.spec_is_zero()
}

/// A body at rest in still air, whatever its attitude, position and air
/// density, has zero airspeed, dynamic pressure, angle of attack and
/// sideslip.
pub proof fn lemma_at_rest_in_still_air<
    T: Real,
    B: RigidBody<T>,
    W: WindModel<T>,
    D: DensityModel<T>,
>(b: AeroBody<T, B, W, D>)
    requires
        zero_laws::<T>(),
        b.body.spec_state().velocity == Vector3::<T>::spec_zeros(),
        b.wind_model.spec_wind(b.body.spec_state().position) == Vector3::<T>::spec_zeros(),
    ensures
        b.spec_airstate() == (AirState {
            alpha: zero::<T>(),
            beta: zero::<T>(),
            airspeed: zero::<T>(),
            q: zero::<T>(),
        }),
{
    let z = zero::<T>();
    let zv = Vector3::<T>::spec_zeros();
    let dcm = b.body.spec_dcm();
    assert(dcm.r0.x.spec_times(z) == z);
    assert(dcm.r0.y.spec_times(z) == z);
    assert(dcm.r0.z.spec_times(z) == z);
    assert(dcm.r1.x.spec_times(z) == z);
    assert(dcm.r1.y.spec_times(z) == z);
    assert(dcm.r1.z.spec_times(z) == z);
    assert(dcm.r2.x.spec_times(z) == z);
    assert(dcm.r2.y.spec_times(z) == z);
    assert(dcm.r2.z.spec_times(z) == z);
    assert(dcm.spec_apply(zv) == zv);
    let rel = relative_wind(b.body.spec_state().velocity, dcm, zv);
    assert(rel == zv);
    assert(z.spec_times(z) == z);
    assert(norm(rel) == z);
    let density = b.density_model.spec_density(b.body.spec_state().position);
    assert(T::spec_from_ratio(1, 2).spec_times(density).spec_times(z) == z);
}

} // verus!
