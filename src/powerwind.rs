use vstd::prelude::*;
use crate::scalar::{Real, Vector3, zero};
use crate::aero::WindModel;

verus! {

/// Numerator of the typical shear exponent for open terrain (0.143).
pub const ALPHA_TYPICAL_NUM: i64 = 143;

/// Denominator of the typical shear exponent for open terrain.
pub const ALPHA_TYPICAL_DEN: i64 = 1000;

/// A power-law boundary-layer wind profile: the horizontal speed at height
/// `z` is `u_r * (z / z_r)^alpha`, blowing along a compass bearing given in
/// degrees. The vertical coordinate of the position is used as the height
/// as it stands, with no change of sign.
#[derive(Clone, Copy)]
pub struct PowerWind<T> {
    pub u_r: T,
    pub z_r: T,
    pub alpha: T,
    pub bearing: T,
}

/// The horizontal wind speed of the profile at height `height`.
pub open spec fn power_speed<T: Real>(u_r: T, z_r: T, alpha: T, height: T) -> T {
    u_r.spec_times(height.spec_divide(z_r).spec_powf(alpha))
}

/// The wind vector of the profile at height `height`.
pub open spec fn power_wind<T: Real>(u_r: T, z_r: T, alpha: T, bearing: T, height: T) -> Vector3<T> {
    let speed = power_speed(u_r, z_r, alpha, height);
    let b = bearing.spec_to_radians();
    Vector3 { x: speed.spec_times(b.spec_cos()), y: speed.spec_times(b.spec_sin()), z: zero::<T>() }
}

impl<T: Real> PowerWind<T> {
    /// Creates a profile with reference speed `u_r` at reference height
    /// `z_r`, bearing `bearing` (degrees) and shear exponent `alpha`.
    pub fn new_with_alpha(u_r: T, z_r: T, bearing: T, alpha: T) -> (r: Self)
        ensures
            r == (PowerWind { u_r, z_r, alpha, bearing }),
    {
        PowerWind { u_r, z_r, bearing, alpha }
    }

    /// Creates a profile with the typical shear exponent 0.143.
    pub fn new(u_r: T, z_r: T, bearing: T) -> (r: Self)
        ensures
            r == (PowerWind {
                u_r,
                z_r,
                alpha: T::spec_from_ratio(ALPHA_TYPICAL_NUM, ALPHA_TYPICAL_DEN),
                bearing,
            }),
    {
        Self::new_with_alpha(u_r, z_r, bearing, T::from_ratio(ALPHA_TYPICAL_NUM, ALPHA_TYPICAL_DEN))
    }
}

impl<T: Real> WindModel<T> for PowerWind<T> {
    open spec fn spec_wind(&self, position: Vector3<T>) -> Vector3<T> {
        power_wind(self.u_r, self.z_r, self.alpha, self.bearing, position.z)
    }

    open spec fn spec_step(self, delta_t: T) -> Self {
        self
    }

    fn get_wind(&self, position: &Vector3<T>) -> (r: Vector3<T>) {
        let velocity = self.u_r.times(position.z.divide(self.z_r).powf(self.alpha));
        let bearing_rad = self.bearing.to_radians();
        Vector3::new(velocity.times(bearing_rad.cos()), velocity.times(bearing_rad.sin()), T::from_ratio(0, 1))
    }

    fn step(&mut self, delta_t: T) {
    }
}

/// Facts of exact arithmetic about one: a nonzero value divided by itself
/// is one, one to any power is one, and multiplying by one changes nothing.
pub open spec fn unit_laws<T: Real>() -> bool {
    let one = T::spec_from_ratio(1, 1);
    &&& forall|x: T| !x.spec_is_zero() ==> #[trigger] x.spec_divide(x) == one
    &&& forall|e: T| #[trigger] one.spec_powf(e) == one
    &&& forall|x: T| #[trigger] x.spec_times(one) == x
}

/// The profile's wind has no vertical component, and its horizontal part is
/// the speed at the position's height along the bearing. In exact
/// arithmetic, that speed at the reference height is the reference speed,
/// whatever the shear exponent.
pub proof fn lemma_power_wind_profile<T: Real>(w: PowerWind<T>, position: Vector3<T>)
    requires
        unit_laws::<T>(),
        !w.z_r.spec_is_zero(),
    ensures
        w.spec_wind(position).z == zero::<T>(),
        w.spec_wind(position).x == power_speed(w.u_r, w.z_r, w.alpha, position.z).spec_times(
            w.bearing.spec_to_radians().spec_cos(),
        ),
        w.spec_wind(position).y == power_speed(w.u_r, w.z_r, w.alpha, position.z).spec_times(
            w.bearing.spec_to_radians().spec_sin(),
        ),
        position.z == w.z_r ==> power_speed(w.u_r, w.z_r, w.alpha, position.z) == w.u_r,
{
    let one = T::spec_from_ratio(1, 1);
    assert(w.z_r.spec_divide(w.z_r) == one);
    assert(one.spec_powf(w.alpha) == one);
    assert(w.u_r.spec_times(one) == w.u_r);
}

} // verus!
