//! Angular cross-sections and rejection sampling.
//!
//! A [`CrossSection`] gives the probability density of scattering with a
//! given angle cosine `mu` at a given energy, together with a bound used
//! as the envelope of rejection sampling.  Two concrete cross-sections
//! are provided: coherent scattering weighted by a tabulated atomic form
//! factor, and incoherent scattering as the closed-form Klein–Nishina
//! density weighted by a tabulated incoherent scattering function.
//!
//! All densities are exact integers in units of half the squared
//! classical electron radius, and energies are integers in
//! kilo-electronvolts.

use vstd::prelude::*;
use crate::function::{iabs, lemma_quot_fits, quot, seq_max, Function, Interpolable, Number};
use crate::mc::geometry::Rotation;
use crate::sample::RandomSource;

verus! {

/// The electron rest energy, in the crate's energy unit (keV).
pub const ELECTRON_REST_ENERGY: i64 = 511;

/// The largest incident energy the scattering formulas accept.
pub const MAX_ENERGY: i64 = 0x2000_0000_0000_0000;

/// The largest magnitude of a tabulated value that the cross-section
/// formulas can square or double without leaving the machine range.
pub const MAX_TABLE_VALUE: i64 = 0x4000_0000;

/// The momentum-transfer parameter `x = E * sin(theta/2)` at which the
/// tabulated atomic functions are looked up.  The half-angle factor
/// `sin(theta/2) = sqrt((1 - mu) / 2)` is floored to the integer
/// `(1 - mu) / 2`: exact at `mu = 1` and `mu = -1`, while at `mu = 0`
/// the factor (about 0.707) floors to zero and the lookup lands at the
/// table's origin.
pub open spec fn momentum_x(e: int, mu: int) -> int {
    e * quot(1 - mu, 2)
}

/// The Klein–Nishina angular cross-section on the integer model, in
/// units of half the squared classical electron radius:
/// `alpha^2 * (alpha + kappa*(1 - mu) + mu^2)` with
/// `alpha = 1 / (1 + kappa*(1 - mu))` and `kappa = E / (m_e c^2)`.
pub open spec fn klein_nishina_spec(e: int, mu: int) -> int {
    let kappa_antimu = quot(e, ELECTRON_REST_ENERGY as int) * (1 - mu);
    let alpha = quot(1, 1 + kappa_antimu);
    alpha * alpha * (alpha + kappa_antimu + mu * mu)
}

/// The Compton energy after scattering with angle cosine `mu`:
/// `E' = E / (1 + kappa*(1 - mu))` with `kappa = E / (m_e c^2)`.
pub open spec fn compton_spec(e: int, mu: int) -> int {
    quot(e, 1 + quot(e, ELECTRON_REST_ENERGY as int) * (1 - mu))
}

/// The Klein–Nishina density is never negative and never exceeds its
/// forward value, which is exactly two in the crate's density unit.
pub proof fn lemma_klein_nishina_bounded(e: int, mu: int)
    requires
        0 <= e,
        -1 <= mu <= 1,
    ensures
        0 <= klein_nishina_spec(e, mu) <= 2,
        klein_nishina_spec(e, 1) == 2,
{
    let kappa = quot(e, ELECTRON_REST_ENERGY as int);
    vstd::arithmetic::div_mod::lemma_div_basics_4(e, ELECTRON_REST_ENERGY as int);
    assert(0 <= kappa);
    assert(0 <= kappa * (1 - mu) && (1 - mu == 0 ==> kappa * (1 - mu) == 0)) by (nonlinear_arith)
        requires
            0 <= kappa,
            0 <= 1 - mu,
    ;
    let ka = kappa * (1 - mu);
    let alpha = quot(1, 1 + ka);
    assert(0 <= mu * mu <= 1) by (nonlinear_arith)
        requires
            -1 <= mu <= 1,
    ;
    if ka == 0 {
        vstd::arithmetic::div_mod::lemma_div_basics_2(1);
        assert(alpha == 1);
        assert(alpha * alpha * (alpha + ka + mu * mu) == 1 + mu * mu) by (nonlinear_arith)
            requires
                alpha == 1,
                ka == 0,
        ;
    } else {
        vstd::arithmetic::div_mod::lemma_basic_div(1, 1 + ka);
        assert(alpha == 0);
        assert(alpha * alpha * (alpha + ka + mu * mu) == 0) by (nonlinear_arith)
            requires
                alpha == 0,
        ;
    }
    // Forward, the reciprocal term vanishes and the density is two.
    assert(kappa * (1 - 1) == 0);
    let alpha_fwd = quot(1, 1 + kappa * (1 - 1));
    vstd::arithmetic::div_mod::lemma_div_basics_2(1);
    assert(alpha_fwd == 1);
    assert(alpha_fwd * alpha_fwd * (alpha_fwd + kappa * (1 - 1) + 1 * 1) == 2) by (nonlinear_arith)
        requires
            alpha_fwd == 1,
            kappa * (1 - 1) == 0,
    ;
}

/// Forward scattering is lossless: with the scattering angle at zero,
/// so that `mu = 1`, the Compton formula returns the incident energy
/// exactly.
pub proof fn lemma_compton_forward_no_loss(e: int)
    requires
        0 <= e,
    ensures
        compton_spec(e, 1) == e,
{
    assert(quot(e, ELECTRON_REST_ENERGY as int) * (1 - 1) == 0);
    assert(compton_spec(e, 1) == quot(e, 1));
    vstd::arithmetic::div_mod::lemma_div_basics_2(e);
}

/// Division of non-negative machine integers, exact on the model.
fn div_nonneg(a: i64, b: i64) -> (r: i64)
    requires
        0 <= a,
        1 <= b,
    ensures
        r as int == quot(a as int, b as int),
        0 <= r <= a,
{
    proof {
        lemma_quot_fits(a as int, b as int);
    }
    ((a as u64) / (b as u64)) as i64
}

/// Common trait of all angular spectral cross-sections.
pub trait CrossSection {
    /// The modelled density at the given energy and angle cosine.
    spec fn eval_spec(&self, energy: int, mu: int) -> int;

    /// The modelled envelope bound at the given energy.
    spec fn max_spec(&self, energy: int) -> int;

    /// The inputs on which the cross-section is defined: its tables
    /// cover the looked-up parameter and the arithmetic stays inside
    /// the machine range.
    spec fn eval_req(&self, energy: int, mu: int) -> bool;

    /// Evaluates the cross-section at the given `energy` and `mu`.
    ///
    /// `mu` is `cos(theta)`, where `theta` is the angle between the
    /// particle's original and new direction; it lies between -1 and 1.
    fn eval(&self, energy: i64, mu: i64) -> (r: i64)
        requires
            -1 <= mu <= 1,
            self.eval_req(energy as int, mu as int),
        ensures
            r as int == self.eval_spec(energy as int, mu as int),
            r >= 0,
    ;

    /// Returns an envelope for the angular spectral cross-section at a
    /// given energy.  This is what the rejection method draws under;
    /// it must be a true bound of the density for the accepted samples
    /// to be unbiased, which is the implementor's responsibility and is
    /// not checked here.
    fn max(&self, energy: i64) -> (r: i64)
        requires
            forall|m: int| -1 <= m <= 1 ==> self.eval_req(energy as int, m),
        ensures
            r as int == self.max_spec(energy as int),
            r >= 0,
    ;
}

/// A coherent scattering cross-section that depends on an atomic form
/// factor.
pub struct CoherentCrossSection {
    form_factor: Function<i64, i64>,
}

impl CoherentCrossSection {
    /// The tabulated atomic form factor.
    pub closed spec fn form_factor_of(self) -> Function<i64, i64> {
        self.form_factor
    }

    /// Creates a cross-section with the given atomic form factor.
    pub fn new(form_factor: Function<i64, i64>) -> (r: Self)
        ensures
            r.form_factor_of() == form_factor,
    {
        CoherentCrossSection { form_factor }
    }

    /// Evaluates the atomic form factor at the given energy and `mu`.
    pub fn form_factor(&self, energy: i64, mu: i64) -> (r: i64)
        requires
            -1 <= mu <= 1,
            self.eval_req(energy as int, mu as int),
        ensures
            r as int == self.form_factor_of().call_spec(momentum_x(energy as int, mu as int)),
    {
        let x = get_x(energy, mu);
        self.form_factor.call(x)
    }
}

impl CrossSection for CoherentCrossSection {
    /// The density `(1 + mu^2) * F(x)^2`, in units of half the squared
    /// classical electron radius.
    open spec fn eval_spec(&self, energy: int, mu: int) -> int {
        let f = self.form_factor_of().call_spec(momentum_x(energy, mu));
        (1 + mu * mu) * (f * f)
    }

    /// The density at `mu = 1`, assuming the density increases toward
    /// forward scattering; this is not checked against the table.
    open spec fn max_spec(&self, energy: int) -> int {
        self.eval_spec(energy, 1)
    }

    open spec fn eval_req(&self, energy: int, mu: int) -> bool {
        let x = momentum_x(energy, mu);
        &&& self.form_factor_of().wf()
        &&& 0 <= energy
        &&& self.form_factor_of().xs()[0] <= x <= self.form_factor_of().xs().last()
        &&& self.form_factor_of().call_safe(x)
        &&& iabs(self.form_factor_of().call_spec(x)) <= MAX_TABLE_VALUE as int
    }

    fn eval(&self, energy: i64, mu: i64) -> (r: i64) {
        let x = get_x(energy, mu);
        let f = self.form_factor.call(x);
        proof {
            assert(0 <= f * f <= 0x1000_0000_0000_0000) by (nonlinear_arith)
                requires
                    iabs(f as int) <= 0x4000_0000,
            ;
        }
        let f2 = f * f;
        proof {
            assert(0 <= mu * mu <= 1) by (nonlinear_arith)
                requires
                    -1 <= mu <= 1,
            ;
        }
        let angular = 1 + mu * mu;
        proof {
            assert(0 <= angular * f2 <= 2 * f2) by (nonlinear_arith)
                requires
                    1 <= angular <= 2,
                    0 <= f2,
            ;
        }
        angular * f2
    }

    fn max(&self, energy: i64) -> (r: i64) {
        self.eval(energy, 1)
    }
}

/// An incoherent scattering cross-section that depends on an incoherent
/// scattering function.
pub struct IncoherentCrossSection {
    scattering_function: Function<i64, i64>,
}

impl IncoherentCrossSection {
    /// The tabulated incoherent scattering function.
    pub closed spec fn scattering_function_of(self) -> Function<i64, i64> {
        self.scattering_function
    }

    /// Creates a cross-section with the given incoherent scattering
    /// function.
    pub fn new(scattering_function: Function<i64, i64>) -> (r: Self)
        ensures
            r.scattering_function_of() == scattering_function,
    {
        IncoherentCrossSection { scattering_function }
    }

    /// The conservative envelope really dominates the density: at every
    /// angle cosine the table reads at most its global maximum, and the
    /// Klein–Nishina factor at most its forward value.
    pub proof fn lemma_max_dominates(self, e: int, mu: int)
        requires
            -1 <= mu <= 1,
            self.eval_req(e, mu),
        ensures
            self.eval_spec(e, mu) <= self.max_spec(e),
    {
        lemma_klein_nishina_bounded(e, mu);
        let table = self.scattering_function_of();
        let x = momentum_x(e, mu);
        table.lemma_call_spec_within(x);
        let s = table.call_spec(x);
        let smax = crate::function::seq_max(table.ys());
        assert(klein_nishina_spec(e, mu) * s <= 2 * smax) by (nonlinear_arith)
            requires
                0 <= klein_nishina_spec(e, mu) <= 2,
                0 <= s <= smax,
        ;
    }

    /// Calculates the resulting energy of the Compton formula.
    ///
    /// `mu` is `cos(theta)`, where `theta` is the polar angle; `energy`
    /// is the incident particle's energy, the result is the energy after
    /// the scattering process.
    pub fn compton_scatter(energy: i64, mu: i64) -> (r: i64)
        requires
            1 <= energy <= MAX_ENERGY,
            -1 <= mu <= 1,
        ensures
            r as int == compton_spec(energy as int, mu as int),
            0 <= r <= energy,
    {
        let kappa = div_nonneg(energy, ELECTRON_REST_ENERGY);
        proof {
            assert(0 <= kappa * (1 - mu) <= 2 * kappa) by (nonlinear_arith)
                requires
                    0 <= kappa,
                    0 <= 1 - mu <= 2,
            ;
        }
        let kappa_antimu = kappa * (1 - mu);
        div_nonneg(energy, 1 + kappa_antimu)
    }

    /// Evaluates the incoherent scattering function at the given energy
    /// and `mu`.
    pub fn scattering_function(&self, energy: i64, mu: i64) -> (r: i64)
        requires
            -1 <= mu <= 1,
            self.eval_req(energy as int, mu as int),
        ensures
            r as int == self.scattering_function_of().call_spec(
                momentum_x(energy as int, mu as int),
            ),
    {
        let x = get_x(energy, mu);
        self.scattering_function.call(x)
    }

    /// Calculates the Klein–Nishina cross-section at the given energy
    /// and `mu`, in units of half the squared classical electron radius.
    pub fn klein_nishina(&self, energy: i64, mu: i64) -> (r: i64)
        requires
            1 <= energy <= MAX_ENERGY,
            -1 <= mu <= 1,
        ensures
            r as int == klein_nishina_spec(energy as int, mu as int),
            0 <= r <= 2,
    {
        let kappa = div_nonneg(energy, ELECTRON_REST_ENERGY);
        proof {
            assert(0 <= kappa * (1 - mu) <= 2 * kappa) by (nonlinear_arith)
                requires
                    0 <= kappa,
                    0 <= 1 - mu <= 2,
            ;
        }
        let kappa_antimu = kappa * (1 - mu);
        let alpha = div_nonneg(1, 1 + kappa_antimu);
        proof {
            if kappa_antimu == 0 {
                vstd::arithmetic::div_mod::lemma_div_basics_2(1);
                assert(alpha == 1);
            } else {
                vstd::arithmetic::div_mod::lemma_basic_div(1, 1 + kappa_antimu as int);
                assert(alpha == 0);
            }
            assert(0 <= mu * mu <= 1) by (nonlinear_arith)
                requires
                    -1 <= mu <= 1,
            ;
        }
        let inner = alpha + kappa_antimu + mu * mu;
        proof {
            assert(alpha * alpha * inner == if alpha == 1 {
                inner
            } else {
                0
            }) by (nonlinear_arith)
                requires
                    alpha == 0 || alpha == 1,
            ;
        }
        alpha * alpha * inner
    }
}

impl CrossSection for IncoherentCrossSection {
    /// The density: the Klein–Nishina cross-section weighted by the
    /// tabulated incoherent scattering function.
    open spec fn eval_spec(&self, energy: int, mu: int) -> int {
        klein_nishina_spec(energy, mu) * self.scattering_function_of().call_spec(
            momentum_x(energy, mu),
        )
    }

    /// The forward Klein–Nishina density times the global maximum of the
    /// scattering-function table: an intentionally conservative,
    /// non-local bound.
    open spec fn max_spec(&self, energy: int) -> int {
        klein_nishina_spec(energy, 1) * seq_max(self.scattering_function_of().ys())
    }

    open spec fn eval_req(&self, energy: int, mu: int) -> bool {
        let x = momentum_x(energy, mu);
        &&& self.scattering_function_of().wf()
        &&& 1 <= energy <= MAX_ENERGY as int
        &&& self.scattering_function_of().xs()[0] <= x <= self.scattering_function_of().xs().last()
        &&& self.scattering_function_of().call_safe(x)
        &&& 0 <= self.scattering_function_of().call_spec(x) <= MAX_TABLE_VALUE as int
        &&& 0 <= seq_max(self.scattering_function_of().ys()) <= MAX_TABLE_VALUE as int
    }

    fn eval(&self, energy: i64, mu: i64) -> (r: i64) {
        let kn = self.klein_nishina(energy, mu);
        let x = get_x(energy, mu);
        let s = self.scattering_function.call(x);
        proof {
            assert(0 <= kn * s <= 2 * s) by (nonlinear_arith)
                requires
                    0 <= kn <= 2,
                    0 <= s,
            ;
        }
        kn * s
    }

    /// The envelope: the forward Klein–Nishina value times the global
    /// maximum of the table, which dominates the density at every angle
    /// cosine the cross-section is defined on.
    fn max(&self, energy: i64) -> (r: i64)
        ensures
            forall|m: int|
                -1 <= m <= 1 && self.eval_req(energy as int, m) ==> #[trigger] self.eval_spec(
                    energy as int,
                    m,
                ) <= r,
    {
        proof {
            assert(self.eval_req(energy as int, 1));
            assert forall|m: int|
                -1 <= m <= 1 && self.eval_req(energy as int, m) implies #[trigger] self.eval_spec(
                energy as int,
                m,
            ) <= self.max_spec(energy as int) by {
                self.lemma_max_dominates(energy as int, m);
            }
        }
        let kn = self.klein_nishina(energy, 1);
        let max_scatter = *self.scattering_function.max();
        proof {
            assert(0 <= kn * max_scatter <= 2 * max_scatter) by (nonlinear_arith)
                requires
                    0 <= kn <= 2,
                    0 <= max_scatter,
            ;
        }
        kn * max_scatter
    }
}

/// Calculates the parameter `x = E * sin(theta/2)` from the angle
/// cosine `mu`.
pub fn get_x(energy: i64, mu: i64) -> (r: i64)
    requires
        0 <= energy,
        -1 <= mu <= 1,
    ensures
        r as int == momentum_x(energy as int, mu as int),
{
    let h = ((1 - mu) as u64 / 2) as i64;
    proof {
        assert(h as int == quot(1 - mu, 2));
        assert(energy as int * (h as int) == if h == 1 {
            energy as int
        } else {
            0
        }) by (nonlinear_arith)
            requires
                h == 0 || h == 1,
        ;
    }
    energy * h
}

/// The rotation whose angle has cosine `mu`; the sign of the angle is
/// chosen by `flip`, as scattering is symmetric about the beam axis.
pub fn rotation_from_mu(mu: i64, flip: bool) -> (r: Rotation)
    requires
        -1 <= mu <= 1,
    ensures
        r.wf(),
        r.ck() == mu,
{
    proof {
        assert(0 <= mu * mu <= 1) by (nonlinear_arith)
            requires
                -1 <= mu <= 1,
        ;
    }
    let s2 = 1 - mu * mu;
    let s: i64 = if s2 == 0 {
        0
    } else {
        1
    };
    let s = if flip {
        -s
    } else {
        s
    };
    proof {
        assert(mu * mu + s * s == 1) by (nonlinear_arith)
            requires
                -1 <= mu <= 1,
                (mu * mu == 1 && s == 0) || (mu * mu != 1 && (s == 1 || s == -1)),
        ;
    }
    Rotation::new(mu, s)
}

/// Iterator-like sampler that draws `mu` from a cross-section
/// distribution using the rejection method.
pub struct RejectionSampler<'a, XS: CrossSection> {
    dist: &'a XS,
    energy: i64,
    max_xsection: i64,
}

impl<'a, XS: CrossSection> RejectionSampler<'a, XS> {
    /// The sampled cross-section.
    pub closed spec fn dist_of(self) -> XS {
        *self.dist
    }

    /// The fixed energy at which the cross-section is sampled.
    pub closed spec fn energy_of(self) -> int {
        self.energy as int
    }

    /// The cached envelope bound.
    pub closed spec fn max_of(self) -> int {
        self.max_xsection as int
    }

    /// The sampler holds the envelope of its cross-section at its
    /// energy, the envelope is positive, and the cross-section accepts
    /// every angle cosine at that energy.
    pub open spec fn wf(self) -> bool {
        &&& forall|m: int| -1 <= m <= 1 ==> self.dist_of().eval_req(self.energy_of(), m)
        &&& self.max_of() == self.dist_of().max_spec(self.energy_of())
        &&& self.max_of() >= 1
    }

    /// Creates a new sampler, sampling the cross-section at the given,
    /// fixed energy.
    pub fn new(dist: &'a XS, energy: i64) -> (r: Self)
        requires
            forall|m: int| -1 <= m <= 1 ==> dist.eval_req(energy as int, m),
            dist.max_spec(energy as int) >= 1,
        ensures
            r.wf(),
            r.dist_of() == *dist,
            r.energy_of() == energy as int,
    {
        let max_xsection = dist.max(energy);
        RejectionSampler { dist, energy, max_xsection }
    }

    /// Produces a new `mu` value, distributed proportionally to the
    /// cross-section at the sampler's energy, by drawing under the
    /// envelope until a draw falls below the density.
    ///
    /// Any returned `mu` lies in the sampling range and has positive
    /// density.  At most `tries` draws are made; if none is accepted —
    /// ever rarer as `tries` grows — `None` is reported.
    pub fn gen_mu<R: RandomSource>(&self, rng: &mut R, tries: u64) -> (r: Option<i64>)
        requires
            self.wf(),
        ensures
            match r {
                Some(mu) => -1 <= mu <= 1 && self.dist_of().eval_spec(self.energy_of(), mu as int)
                    > 0,
                None => true,
            },
    {
        let mut t = tries;
        while t > 0
            invariant
                self.wf(),
            decreases t,
        {
            t = t - 1;
            let random_mu = rng.uniform(-1, 2);
            let random_xsection = rng.uniform(0, self.max_xsection);
            let at_mu = self.dist.eval(self.energy, random_mu);
            if random_xsection < at_mu {
                return Some(random_mu);
            }
        }
        None
    }

    /// Samples a new `mu` value: an alias for [`Self::gen_mu`].
    pub fn sample<R: RandomSource>(&self, rng: &mut R, tries: u64) -> (r: Option<i64>)
        requires
            self.wf(),
        ensures
            match r {
                Some(mu) => -1 <= mu <= 1 && self.dist_of().eval_spec(self.energy_of(), mu as int)
                    > 0,
                None => true,
            },
    {
        self.gen_mu(rng, tries)
    }
}

} // verus!
