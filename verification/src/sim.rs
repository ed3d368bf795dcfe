//! Random genotype matrices: each column draws its own minor-allele
//! frequency, then samples per-row allele dosages from a two-trial binomial
//! distribution. The generator takes an explicit seedable source of
//! randomness, so fixed seeds reproduce a matrix exactly.

use vstd::prelude::*;
use crate::SimError;

verus! {

/// Declares rand's `StdRng`, the seedable source of randomness that the
/// generator consumes; its values are opaque here.
#[verifier::external_type_specification]
#[verifier::external_body]
pub struct ExStdRng(rand::rngs::StdRng);

/// Declares statrs's `Binomial` distribution; its values are opaque here.
#[verifier::external_type_specification]
#[verifier::external_body]
pub struct ExBinomial(statrs::distribution::Binomial);

/// A two-trial binomial dosage distribution whose success probability is a
/// minor-allele frequency drawn uniformly from [0, 1/2].
///
/// Values of this type are built only by `fresh_dosage_dist`, so the inner
/// distribution always has exactly two trials.
pub struct DosageDist {
    dist: statrs::distribution::Binomial,
}

/// Relies on statrs's `Uniform::new` and `Binomial::new`, and on rand's
/// `Distribution::sample` for `Uniform`: draws a minor-allele frequency
/// uniformly from [0, 1/2] and builds the binomial distribution with two
/// trials and that success probability. `Uniform::new` accepts the finite,
/// ordered bounds 0 and 1/2, its samples lie inside those bounds, and
/// `Binomial::new` accepts every probability in [0, 1], so neither
/// constructor fails.
#[verifier::external_body]
fn fresh_dosage_dist(rng: &mut rand::rngs::StdRng) -> (d: DosageDist) {
    let uniform = statrs::distribution::Uniform::new(0u8.into(), "0.5".parse().unwrap()).unwrap();
    let maf = rand::distributions::Distribution::sample(&uniform, rng);
    DosageDist { dist: statrs::distribution::Binomial::new(maf, 2).unwrap() }
}

/// Relies on rand's `Distribution::sample` for statrs's `Binomial`: the
/// sample is the number of successes over the distribution's trials, so for
/// the two-trial distributions built by `fresh_dosage_dist` it is one of
/// 0, 1 or 2.
#[verifier::external_body]
fn sample_dosage(d: &DosageDist, rng: &mut rand::rngs::StdRng) -> (dosage: u8)
    ensures
        dosage <= 2,
{
    rand::distributions::Distribution::sample(&d.dist, rng) as u8
}

/// A genotype matrix of minor-allele dosages, stored column-major:
/// `m@[c][r]` is the dosage of sample `r` at site `c`. Every entry of a
/// well-formed matrix is 0, 1 or 2.
#[derive(Debug)]
pub struct GenotypeMatrix {
    n_rows: usize,
    cols: Vec<Vec<u8>>,
}

impl View for GenotypeMatrix {
    type V = Seq<Seq<u8>>;

    closed spec fn view(&self) -> Seq<Seq<u8>> {
        self.cols@.map_values(|col: Vec<u8>| col@)
    }
}

impl GenotypeMatrix {
    /// The number of samples (rows).
    pub closed spec fn spec_n(&self) -> nat {
        self.n_rows as nat
    }

    /// The number of sites (columns).
    pub open spec fn spec_p(&self) -> nat {
        self@.len()
    }

    /// Every column holds one dosage per sample, and every dosage is 0, 1
    /// or 2.
    pub open spec fn wf(&self) -> bool {
        forall|c: int| 0 <= c < self@.len() ==> {
            &&& (#[trigger] self@[c]).len() == self.spec_n()
            &&& forall|r: int| 0 <= r < self@[c].len() ==> #[trigger] self@[c][r] <= 2
        }
    }

    /// The number of samples (rows).
    pub fn n(&self) -> (n: usize)
        ensures
            n == self.spec_n(),
    {
        self.n_rows
    }

    /// The number of sites (columns).
    pub fn p(&self) -> (p: usize)
        ensures
            p == self.spec_p(),
    {
        self.cols.len()
    }

    /// The dosage of sample `r` at site `c`.
    pub fn get(&self, r: usize, c: usize) -> (dosage: u8)
        requires
            c < self.spec_p(),
            r < self@[c as int].len(),
        ensures
            dosage == self@[c as int][r as int],
    {
        self.cols[c][r]
    }
}

/// Domain law: every entry of a well-formed genotype matrix is one of the
/// dosages 0, 1 and 2.
pub proof fn lemma_dosage_domain(m: GenotypeMatrix, c: int, r: int)
    requires
        m.wf(),
        0 <= c < m.spec_p(),
        0 <= r < m@[c].len(),
    ensures
        m@[c][r] == 0 || m@[c][r] == 1 || m@[c][r] == 2,
{
    assert(m@[c][r] <= 2);
}

/// Generates an `n x p` genotype matrix. Each column independently draws a
/// minor-allele frequency uniformly from [0, 1/2] and then samples each of
/// its `n` dosages from the binomial distribution with two trials and that
/// frequency as success probability, so every entry is 0, 1 or 2.
///
/// Fails with `InvalidParameter` exactly when `n` or `p` is zero.
pub fn random_genotype_matrix(n: usize, p: usize, rng: &mut rand::rngs::StdRng) -> (res: Result<
    GenotypeMatrix,
    SimError,
>)
    ensures
        res is Ok <==> (n > 0 && p > 0),
        res matches Err(e) ==> e == SimError::InvalidParameter,
        res matches Ok(m) ==> {
            &&& m.wf()
            &&& m.spec_n() == n
            &&& m.spec_p() == p
        },
{
    if n == 0 || p == 0 {
        return Err(SimError::InvalidParameter);
    }
    let mut cols: Vec<Vec<u8>> = Vec::new();
    let mut cix: usize = 0;
    while cix < p
        invariant
            cix <= p,
            cols@.len() == cix,
            forall|c: int| 0 <= c < cix ==> {
                &&& (#[trigger] cols@[c])@.len() == n
                &&& forall|r: int| 0 <= r < n ==> #[trigger] cols@[c]@[r] <= 2
            },
        decreases p - cix,
    {
        let dist = fresh_dosage_dist(rng);
        let mut col: Vec<u8> = Vec::new();
        let mut rix: usize = 0;
        while rix < n
            invariant
                rix <= n,
                col@.len() == rix,
                forall|r: int| 0 <= r < rix ==> #[trigger] col@[r] <= 2,
            decreases n - rix,
        {
            col.push(sample_dosage(&dist, rng));
            rix = rix + 1;
        }
        cols.push(col);
        cix = cix + 1;
    }
    let m = GenotypeMatrix { n_rows: n, cols };
    Ok(m)
}

} // verus!
