use vstd::prelude::*;
use crate::scalar::{Real, Vector3, vec_sum, sum_vectors, plus_commutes, plus_associates};
use crate::aero::{AeroBody, AirState, DensityModel, Frame, RigidBody, WindModel};

verus! {

/// A source of aerodynamic force and torque: a function of the air state,
/// the body rates and a control input (deflections, throttle, ...), whose
/// shape each effect defines for itself.
pub trait AeroEffect<T: Real, I: Copy>: Sized {
    /// The force and torque (body frame) that the effect produces.
    spec fn spec_effect(&self, airstate: AirState<T>, rates: Vector3<T>, input: I) -> (Vector3<T>, Vector3<T>);

    /// Returns the force and torque (body frame) that the effect produces.
    fn get_effect(&self, airstate: AirState<T>, rates: Vector3<T>, input: I) -> (r: (Vector3<T>, Vector3<T>))
        ensures
            r == self.spec_effect(airstate, rates, input),
    ;
}

/// The forces of the effects, in the order of the collection.
pub open spec fn forces_of<T: Real, I: Copy, E: AeroEffect<T, I>>(
    effectors: Seq<E>,
    airstate: AirState<T>,
    rates: Vector3<T>,
    input: I,
) -> Seq<Vector3<T>> {
    Seq::new(effectors.len(), |i: int| effectors[i].spec_effect(airstate, rates, input).0)
}

/// The torques of the effects, in the order of the collection.
pub open spec fn torques_of<T: Real, I: Copy, E: AeroEffect<T, I>>(
    effectors: Seq<E>,
    airstate: AirState<T>,
    rates: Vector3<T>,
    input: I,
) -> Seq<Vector3<T>> {
    Seq::new(effectors.len(), |i: int| effectors[i].spec_effect(airstate, rates, input).1)
}

/// The net force of a collection of effects: the sum of their forces.
pub open spec fn net_force<T: Real, I: Copy, E: AeroEffect<T, I>>(
    effectors: Seq<E>,
    airstate: AirState<T>,
    rates: Vector3<T>,
    input: I,
) -> Vector3<T> {
    vec_sum(forces_of(effectors, airstate, rates, input))
}

/// The net torque of a collection of effects: the sum of their torques.
pub open spec fn net_torque<T: Real, I: Copy, E: AeroEffect<T, I>>(
    effectors: Seq<E>,
    airstate: AirState<T>,
    rates: Vector3<T>,
    input: I,
) -> Vector3<T> {
    vec_sum(torques_of(effectors, airstate, rates, input))
}

/// A body in an atmosphere together with the ordered collection of effects
/// that act on it.
pub struct AffectedBody<T, B, W, D, I, E> {
    pub body: AeroBody<T, B, W, D>,
    pub effectors: Vec<E>,
    /// Marks the control input type of the effects.
    pub input: core::marker::PhantomData<I>,
}

impl<
    T: Real,
    B: RigidBody<T>,
    W: WindModel<T>,
    D: DensityModel<T>,
    I: Copy,
    E: AeroEffect<T, I>,
> AffectedBody<T, B, W, D, I, E> {
    /// Creates a body acted on by `effectors`, in that order.
    pub fn new(body: AeroBody<T, B, W, D>, effectors: Vec<E>) -> (r: Self)
        ensures
            r.body == body,
            r.effectors@ == effectors@,
    {
        AffectedBody { body, effectors, input: core::marker::PhantomData }
    }

    /// Evaluates every effect, in collection order, on one air state, rates
    /// and input, and returns the sum of their forces and the sum of their
    /// torques.
    pub fn net_effect(&self, airstate: AirState<T>, rates: Vector3<T>, inputstate: I) -> (r: (
        Vector3<T>,
        Vector3<T>,
    ))
        ensures
            r.0 == net_force(self.effectors@, airstate, rates, inputstate),
            r.1 == net_torque(self.effectors@, airstate, rates, inputstate),
    {
        let n: usize = self.effectors.len();
        let mut forces: Vec<Vector3<T>> = Vec::with_capacity(n);
        let mut torques: Vec<Vector3<T>> = Vec::with_capacity(n);
        let mut i: usize = 0;
        while i < n
            invariant
                n == self.effectors.len(),
                0 <= i <= n,
                forces@ =~= forces_of(self.effectors@, airstate, rates, inputstate).subrange(0, i as int),
                torques@ =~= torques_of(self.effectors@, airstate, rates, inputstate).subrange(0, i as int),
            decreases n - i,
        {
            let (f, t) = self.effectors[i].get_effect(airstate, rates, inputstate);
            forces.push(f);
            torques.push(t);
            i = i + 1;
        }
        proof {
            assert(forces@ =~= forces_of(self.effectors@, airstate, rates, inputstate));
            assert(torques@ =~= torques_of(self.effectors@, airstate, rates, inputstate));
        }
        (sum_vectors(&forces), sum_vectors(&torques))
    }

    /// Advances the body by `delta_t` seconds: every effect sees the same
    /// air state and body rates, taken once before the step, and the body is
    /// stepped under the net force and the net torque.
    pub fn step(&mut self, delta_t: T, inputstate: I)
        ensures
            final(self).effectors@ == old(self).effectors@,
            final(self).body.wind_model == old(self).body.wind_model.spec_step(delta_t),
            final(self).body.density_model == old(self).body.density_model,
            ({
                let airstate = old(self).body.spec_airstate();
                let rates = old(self).body.body.spec_rates_in_frame(Frame::Body);
                exists|forces: Vec<Vector3<T>>, torques: Vec<Vector3<T>>|
                    forces@ == seq![net_force(old(self).effectors@, airstate, rates, inputstate)]
                    && torques@ == seq![net_torque(old(self).effectors@, airstate, rates, inputstate)]
                    && final(self).body.body == #[trigger] old(self).body.body.spec_step(forces, torques, delta_t)
            }),
    {
        let airstate = self.body.get_airstate();
        let rates = self.body.rates_in_frame(Frame::Body);
        let (net_f, net_t) = self.net_effect(airstate, rates, inputstate);
        let forces = vec![net_f];
        let torques = vec![net_t];
        self.body.step(&forces, &torques, delta_t);
        proof {
            assert(forces@ =~= seq![net_f]);
            assert(torques@ =~= seq![net_t]);
            assert(self.body.body == old(self).body.body.spec_step(forces, torques, delta_t));
        }
    }

    /// The world position of the body.
    pub fn position(&self) -> (r: Vector3<T>)
        ensures
            r == self.body.body.spec_state().position,
    {
        self.body.position()
    }

    /// The velocity of the body, expressed in `frame`.
    pub fn velocity_in_frame(&self, frame: Frame) -> (r: Vector3<T>)
        ensures
            r == self.body.body.spec_velocity_in_frame(frame),
    {
        self.body.velocity_in_frame(frame)
    }

    /// The attitude of the body.
    pub fn attitude(&self) -> (r: crate::scalar::Quaternion<T>)
        ensures
            r == self.body.body.spec_state().attitude,
    {
        self.body.attitude()
    }

    /// The angular rates of the body, expressed in `frame`.
    pub fn rates_in_frame(&self, frame: Frame) -> (r: Vector3<T>)
        ensures
            r == self.body.body.spec_rates_in_frame(frame),
    {
        self.body.rates_in_frame(frame)
    }

    /// The full state vector of the body.
    pub fn statevector(&self) -> (r: crate::scalar::StateVector<T>)
        ensures
            r == self.body.body.spec_state(),
    {
        self.body.statevector()
    }
}

/// With no effects, the net force and the net torque are the zero vector,
/// whatever the air state, rates and control input.
pub proof fn lemma_no_effectors_no_load<T: Real, I: Copy, E: AeroEffect<T, I>>(
    airstate: AirState<T>,
    rates: Vector3<T>,
    input: I,
)
    ensures
        net_force(Seq::<E>::empty(), airstate, rates, input) == Vector3::<T>::spec_zeros(),
        net_torque(Seq::<E>::empty(), airstate, rates, input) == Vector3::<T>::spec_zeros(),
{
}

/// The effects of `b` are those of `a` in the order that `p` gives:
/// `b[i]` is `a[p[i]]`, and `p` is a bijection on the indices.
pub open spec fn is_permutation<E>(a: Seq<E>, b: Seq<E>, p: Seq<int>) -> bool {
    &&& a.len() == b.len()
    &&& p.len() == a.len()
    &&& forall|i: int| 0 <= i < p.len() ==> 0 <= #[trigger] p[i] < a.len()
    &&& forall|i: int, j: int| 0 <= i < p.len() && 0 <= j < p.len() && i != j ==> #[trigger] p[i] != #[trigger] p[j]
    &&& forall|i: int| 0 <= i < b.len() ==> #[trigger] b[i] == a[p[i]]
}

/// Vector addition commutes where scalar addition does.
proof fn lemma_vector_plus_commutes<T: Real>(u: Vector3<T>, v: Vector3<T>)
    requires
        plus_commutes::<T>(),
    ensures
        u.spec_plus(v) == v.spec_plus(u),
{
    assert(u.x.spec_plus(v.x) == v.x.spec_plus(u.x));
    assert(u.y.spec_plus(v.y) == v.y.spec_plus(u.y));
    assert(u.z.spec_plus(v.z) == v.z.spec_plus(u.z));
}

/// A sum of at most two vectors does not depend on their order where
/// scalar addition commutes.
proof fn lemma_sum_two_order<T: Real>(s: Seq<Vector3<T>>, t: Seq<Vector3<T>>, p: Seq<int>)
    requires
        plus_commutes::<T>(),
        is_permutation(s, t, p),
        s.len() <= 2,
    ensures
        vec_sum(s) == vec_sum(t),
{
    if s.len() == 1 {
        assert(t[0] == s[p[0]]);
    } else if s.len() == 2 {
        assert(vec_sum(s.drop_last()) == s[0]);
        assert(vec_sum(t.drop_last()) == t[0]);
        assert(p[0] != p[1]);
        if p[0] == 1 {
            lemma_vector_plus_commutes(s[0], s[1]);
        }
    }
}

/// Reordering a collection of at most two effects changes neither the net
/// force nor the net torque, for a scalar type whose addition commutes (as
/// IEEE floating-point addition does).
pub proof fn lemma_order_invariance<T: Real, I: Copy, E: AeroEffect<T, I>>(
    a: Seq<E>,
    b: Seq<E>,
    p: Seq<int>,
    airstate: AirState<T>,
    rates: Vector3<T>,
    input: I,
)
    requires
        plus_commutes::<T>(),
        is_permutation(a, b, p),
        a.len() <= 2,
    ensures
        net_force(a, airstate, rates, input) == net_force(b, airstate, rates, input),
        net_torque(a, airstate, rates, input) == net_torque(b, airstate, rates, input),
{
    let fa = forces_of(a, airstate, rates, input);
    let fb = forces_of(b, airstate, rates, input);
    let ta = torques_of(a, airstate, rates, input);
    let tb = torques_of(b, airstate, rates, input);
    assert forall|i: int| 0 <= i < fb.len() implies #[trigger] fb[i] == fa[p[i]] by {
        assert(b[i] == a[p[i]]);
    }
    assert forall|i: int| 0 <= i < tb.len() implies #[trigger] tb[i] == ta[p[i]] by {
        assert(b[i] == a[p[i]]);
    }
    lemma_sum_two_order(fa, fb, p);
    lemma_sum_two_order(ta, tb, p);
}

/// Vector addition associates where scalar addition does.
proof fn lemma_vector_plus_associates<T: Real>(u: Vector3<T>, v: Vector3<T>, w: Vector3<T>)
    requires
        plus_associates::<T>(),
    ensures
        u.spec_plus(v).spec_plus(w) == u.spec_plus(v.spec_plus(w)),
{
    assert(u.x.spec_plus(v.x).spec_plus(w.x) == u.x.spec_plus(v.x.spec_plus(w.x)));
    assert(u.y.spec_plus(v.y).spec_plus(w.y) == u.y.spec_plus(v.y.spec_plus(w.y)));
    assert(u.z.spec_plus(v.z).spec_plus(w.z) == u.z.spec_plus(v.z.spec_plus(w.z)));
}

/// The last two terms of a sum can be swapped in exact arithmetic.
proof fn lemma_swap_last_two<T: Real>(a: Vector3<T>, x: Vector3<T>, y: Vector3<T>)
    requires
        plus_commutes::<T>(),
        plus_associates::<T>(),
    ensures
        a.spec_plus(x).spec_plus(y) == a.spec_plus(y).spec_plus(x),
{
    lemma_vector_plus_associates(a, x, y);
    lemma_vector_plus_commutes(x, y);
    lemma_vector_plus_associates(a, y, x);
}

/// In exact arithmetic, any one term of a sum may be taken out and added
/// last.
proof fn lemma_sum_take_out<T: Real>(s: Seq<Vector3<T>>, j: int)
    requires
        plus_commutes::<T>(),
        plus_associates::<T>(),
        s.len() >= 2,
        0 <= j < s.len(),
    ensures
        vec_sum(s) == vec_sum(s.remove(j)).spec_plus(s[j]),
    decreases s.len(),
{
    let n = s.len();
    let d = s.drop_last();
    let y = s.last();
    assert(vec_sum(s) == vec_sum(d).spec_plus(y));
    if j == n - 1 {
        assert(s.remove(j) =~= d);
    } else if d.len() == 1 {
        assert(s.remove(j) =~= seq![y]);
        assert(vec_sum(d) == s[0]);
        lemma_vector_plus_commutes(s[0], y);
    } else {
        let r = s.remove(j);
        lemma_sum_take_out(d, j);
        assert(d[j] == s[j]);
        assert(r.drop_last() =~= d.remove(j));
        assert(r.last() == y);
        assert(vec_sum(r) == vec_sum(r.drop_last()).spec_plus(r.last()));
        lemma_swap_last_two(vec_sum(d.remove(j)), s[j], y);
    }
}

/// In exact arithmetic, the sum of the images of a collection does not
/// depend on the order of the collection.
proof fn lemma_mapped_sum_permutation<T: Real, E>(a: Seq<E>, b: Seq<E>, f: spec_fn(E) -> Vector3<T>)
    requires
        plus_commutes::<T>(),
        plus_associates::<T>(),
        a.to_multiset() == b.to_multiset(),
    ensures
        vec_sum(a.map_values(f)) == vec_sum(b.map_values(f)),
    decreases a.len(),
{
    broadcast use vstd::seq_lib::group_to_multiset_ensures;

    vstd::seq_lib::to_multiset_len(a);
    vstd::seq_lib::to_multiset_len(b);
    if a.len() > 0 {
        let n = a.len();
        let x = a[n - 1];
        assert(a.contains(x));
        assert(a.to_multiset().count(x) > 0);
        assert(b.to_multiset().count(x) > 0);
        assert(b.contains(x));
        let j = choose|j: int| 0 <= j < b.len() && b[j] == x;
        assert(a.remove(n - 1) =~= a.drop_last());
        assert(a.remove(n - 1).to_multiset() == a.to_multiset().remove(x));
        assert(b.remove(j).to_multiset() == b.to_multiset().remove(x));
        lemma_mapped_sum_permutation(a.drop_last(), b.remove(j), f);
        assert(a.drop_last().map_values(f) =~= a.map_values(f).drop_last());
        assert(b.remove(j).map_values(f) =~= b.map_values(f).remove(j));
        if n == 1 {
            assert(b[0] == x);
        } else {
            lemma_sum_take_out(b.map_values(f), j);
        }
    }
}

/// In exact arithmetic (a scalar type whose addition is commutative and
/// associative), any reordering of a collection of effects, of any size,
/// leaves the net force and the net torque unchanged.
pub proof fn lemma_order_invariance_exact<T: Real, I: Copy, E: AeroEffect<T, I>>(
    a: Seq<E>,
    b: Seq<E>,
    airstate: AirState<T>,
    rates: Vector3<T>,
    input: I,
)
    requires
        plus_commutes::<T>(),
        plus_associates::<T>(),
        a.to_multiset() == b.to_multiset(),
    ensures
        net_force(a, airstate, rates, input) == net_force(b, airstate, rates, input),
        net_torque(a, airstate, rates, input) == net_torque(b, airstate, rates, input),
{
    let f = |e: E| e.spec_effect(airstate, rates, input).0;
    let t = |e: E| e.spec_effect(airstate, rates, input).1;
    lemma_mapped_sum_permutation(a, b, f);
    lemma_mapped_sum_permutation(a, b, t);
    assert(forces_of(a, airstate, rates, input) =~= a.map_values(f));
    assert(forces_of(b, airstate, rates, input) =~= b.map_values(f));
    assert(torques_of(a, airstate, rates, input) =~= a.map_values(t));
    assert(torques_of(b, airstate, rates, input) =~= b.map_values(t));
}

} // verus!
