use vstd::prelude::*;
use crate::scalar::{Real, Vector3};
use crate::aero::WindModel;

verus! {

/// A wind field that is the same at every position and at every time.
#[derive(Clone, Copy)]
pub struct ConstantWind<T> {
    wind: Vector3<T>,
}

impl<T: Real> ConstantWind<T> {
    /// The wind vector that the field holds.
    pub closed spec fn spec_vector(&self) -> Vector3<T> {
        self.wind
    }

    /// Creates a field that blows `wind` (world frame) everywhere.
    pub fn new(wind: Vector3<T>) -> (r: Self)
        ensures
            r.spec_vector() == wind,
    {
        ConstantWind { wind }
    }
}

impl<T: Real> WindModel<T> for ConstantWind<T> {
    open spec fn spec_wind(&self, position: Vector3<T>) -> Vector3<T> {
        self.spec_vector()
    }

    open spec fn spec_step(self, delta_t: T) -> Self {
        self
    }

    fn get_wind(&self, position: &Vector3<T>) -> (r: Vector3<T>) {
        self.wind
    }

    fn step(&mut self, delta_t: T) {
    }
}

} // verus!
