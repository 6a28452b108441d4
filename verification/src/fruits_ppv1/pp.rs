use vstd::prelude::*;

verus! {

/// What a catch chart holds.
#[derive(Copy, Clone, Debug, PartialEq, Eq, Structural)]
pub struct CatchObjects {
    /// The amount of fruits.
    pub n_fruits: usize,
    /// The amount of droplets.
    pub n_droplets: usize,
    /// The amount of tiny droplets.
    pub n_tiny_droplets: usize,
}

impl CatchObjects {
    /// The maximum combo as a number: every fruit and every droplet.
    pub open spec fn spec_max_combo(&self) -> int {
        self.n_fruits + self.n_droplets
    }

    /// Return the maximum combo.
    pub fn max_combo(&self) -> (combo: usize)
        requires
            self.spec_max_combo() <= usize::MAX,
        ensures
            combo == self.spec_max_combo(),
    {
        self.n_fruits + self.n_droplets
    }
}

/// What is left of `a` once `b` is taken away, and nothing if `b` is more.
pub open spec fn spec_sub(a: int, b: int) -> int {
    if a >= b {
        a - b
    } else {
        0
    }
}

/// What is left of `a` once `b` is taken away, and nothing if `b` is more.
fn sub_or_zero(a: usize, b: usize) -> (d: usize)
    ensures
        d == spec_sub(a as int, b as int),
{
    if a >= b {
        a - b
    } else {
        0
    }
}

/// Calculator for pp on catch charts: the parameters of a score as far as
/// they are known.
#[derive(Copy, Clone, Debug, PartialEq, Eq, Structural)]
pub struct FruitsPP {
    pub mods: u32,
    pub combo: Option<usize>,
    pub n_fruits: Option<usize>,
    pub n_droplets: Option<usize>,
    pub n_tiny_droplets: Option<usize>,
    pub n_tiny_droplet_misses: Option<usize>,
    pub n_misses: usize,
    pub passed_objects: Option<usize>,
}

/// A count that was given, or nothing.
pub open spec fn spec_or_zero(count: Option<usize>) -> int {
    match count {
        Some(n) => n as int,
        None => 0,
    }
}

impl FruitsPP {
    /// The droplets that [`FruitsPP::accuracy`] settles on: the given ones,
    /// else those of the chart less the misses.
    pub open spec fn spec_acc_droplets(&self, chart: CatchObjects) -> int {
        match self.n_droplets {
            Some(n) => n as int,
            None => spec_sub(chart.n_droplets as int, self.n_misses as int),
        }
    }

    /// The fruits that [`FruitsPP::accuracy`] settles on: the given ones,
    /// else what misses and droplets leave of the maximum combo.
    pub open spec fn spec_acc_fruits(&self, chart: CatchObjects) -> int {
        match self.n_fruits {
            Some(n) => n as int,
            None => spec_sub(
                spec_sub(chart.spec_max_combo(), self.n_misses as int),
                self.spec_acc_droplets(chart),
            ),
        }
    }

    /// The tiny droplets that [`FruitsPP::accuracy`] settles on: the given
    /// ones, else what fruits and droplets leave of the wanted number of
    /// catches.
    pub open spec fn spec_acc_tiny_droplets(&self, chart: CatchObjects, target: usize) -> int {
        match self.n_tiny_droplets {
            Some(n) => n as int,
            None => spec_sub(
                spec_sub(target as int, self.spec_acc_fruits(chart)),
                self.spec_acc_droplets(chart),
            ),
        }
    }

    /// Whether the given counts are all there and fit the chart: fruits,
    /// droplets and misses make up the maximum combo, neither fruits nor
    /// droplets are fewer than the misses allow, and the tiny droplets with
    /// their misses are those of the chart.
    pub open spec fn spec_hitresults_fit(&self, chart: CatchObjects) -> bool {
        &&& self.n_fruits is Some
        &&& self.n_droplets is Some
        &&& self.n_tiny_droplets is Some
        &&& self.n_tiny_droplet_misses is Some
        &&& spec_or_zero(self.n_fruits) + spec_or_zero(self.n_droplets) + self.n_misses
            == chart.spec_max_combo()
        &&& spec_or_zero(self.n_fruits) >= spec_sub(chart.n_fruits as int, self.n_misses as int)
        &&& spec_or_zero(self.n_droplets) >= spec_sub(
            chart.n_droplets as int,
            self.n_misses as int,
        )
        &&& spec_or_zero(self.n_tiny_droplets) + spec_or_zero(self.n_tiny_droplet_misses)
            == chart.n_tiny_droplets
    }

    /// The counts after [`FruitsPP::assert_hitresults`] filled them up: what
    /// is missing of the maximum combo goes to the fruits as far as the
    /// chart has no droplets left for it, and what is missing of the tiny
    /// droplets is counted as caught.
    pub open spec fn spec_filled(&self, chart: CatchObjects) -> (int, int, int, int) {
        let f = spec_or_zero(self.n_fruits);
        let d = spec_or_zero(self.n_droplets);
        let t = spec_or_zero(self.n_tiny_droplets);
        let m = spec_or_zero(self.n_tiny_droplet_misses);
        let missing = spec_sub(
            spec_sub(spec_sub(chart.spec_max_combo(), f), d),
            self.n_misses as int,
        );
        let missing_fruits = spec_sub(missing, spec_sub(chart.n_droplets as int, d));
        (
            f + missing_fruits,
            d + spec_sub(missing, missing_fruits),
            t + spec_sub(spec_sub(chart.n_tiny_droplets as int, t), m),
            m,
        )
    }

    pub fn new() -> (this: Self)
        ensures
            this == (Self {
                mods: 0,
                combo: None,
                n_fruits: None,
                n_droplets: None,
                n_tiny_droplets: None,
                n_tiny_droplet_misses: None,
                n_misses: 0,
                passed_objects: None,
            }),
    {
        Self {
            mods: 0,
            combo: None,
            n_fruits: None,
            n_droplets: None,
            n_tiny_droplets: None,
            n_tiny_droplet_misses: None,
            n_misses: 0,
            passed_objects: None,
        }
    }

    /// Specify mods through their bit values.
    pub fn mods(self, mods: u32) -> (this: Self)
        ensures
            this == (Self { mods, ..self }),
    {
        Self { mods, ..self }
    }

    /// Specify the max combo of the play.
    pub fn combo(self, combo: usize) -> (this: Self)
        ensures
            this == (Self { combo: Some(combo), ..self }),
    {
        Self { combo: Some(combo), ..self }
    }

    /// Specify the amount of fruits of a play i.e. n300.
    pub fn fruits(self, n_fruits: usize) -> (this: Self)
        ensures
            this == (Self { n_fruits: Some(n_fruits), ..self }),
    {
        Self { n_fruits: Some(n_fruits), ..self }
    }

    /// Specify the amount of droplets of a play i.e. n100.
    pub fn droplets(self, n_droplets: usize) -> (this: Self)
        ensures
            this == (Self { n_droplets: Some(n_droplets), ..self }),
    {
        Self { n_droplets: Some(n_droplets), ..self }
    }

    /// Specify the amount of tiny droplets of a play i.e. n50.
    pub fn tiny_droplets(self, n_tiny_droplets: usize) -> (this: Self)
        ensures
            this == (Self { n_tiny_droplets: Some(n_tiny_droplets), ..self }),
    {
        Self { n_tiny_droplets: Some(n_tiny_droplets), ..self }
    }

    /// Specify the amount of tiny droplet misses of a play i.e. n_katu.
    pub fn tiny_droplet_misses(self, n_tiny_droplet_misses: usize) -> (this: Self)
        ensures
            this == (Self { n_tiny_droplet_misses: Some(n_tiny_droplet_misses), ..self }),
    {
        Self { n_tiny_droplet_misses: Some(n_tiny_droplet_misses), ..self }
    }

    /// Specify the amount of fruit / droplet misses of the play.
    pub fn misses(self, n_misses: usize) -> (this: Self)
        ensures
            this == (Self { n_misses, ..self }),
    {
        Self { n_misses, ..self }
    }

    /// Amount of passed objects for partial plays, e.g. a fail.
    pub fn passed_objects(self, passed_objects: usize) -> (this: Self)
        ensures
            this == (Self { passed_objects: Some(passed_objects), ..self }),
    {
        Self { passed_objects: Some(passed_objects), ..self }
    }

    /// Generate the hit results with respect to a wanted accuracy, given as
    /// the number of catches that it asks for: the accuracy as a share
    /// between `0` and `1` times the number of fruits, droplets and tiny
    /// droplets of the chart, rounded.
    ///
    /// Be sure to set `misses` beforehand!
    pub fn accuracy(self, chart: CatchObjects, target: usize) -> (this: Self)
        requires
            chart.spec_max_combo() <= usize::MAX,
        ensures
            this.n_droplets == Some(self.spec_acc_droplets(chart) as usize),
            this.n_fruits == Some(self.spec_acc_fruits(chart) as usize),
            this.n_tiny_droplets == Some(self.spec_acc_tiny_droplets(chart, target) as usize),
            this.n_tiny_droplet_misses == Some(
                spec_sub(
                    chart.n_tiny_droplets as int,
                    self.spec_acc_tiny_droplets(chart, target),
                ) as usize,
            ),
            this.mods == self.mods,
            this.combo == self.combo,
            this.n_misses == self.n_misses,
            this.passed_objects == self.passed_objects,
    {
        let max_combo = chart.max_combo();

        let n_droplets = match self.n_droplets {
            Some(n) => n,
            None => sub_or_zero(chart.n_droplets, self.n_misses),
        };

        let n_fruits = match self.n_fruits {
            Some(n) => n,
            None => sub_or_zero(sub_or_zero(max_combo, self.n_misses), n_droplets),
        };

        let max_tiny_droplets = chart.n_tiny_droplets;

        let n_tiny_droplets = match self.n_tiny_droplets {
            Some(n) => n,
            None => sub_or_zero(sub_or_zero(target, n_fruits), n_droplets),
        };

        let n_tiny_droplet_misses = sub_or_zero(max_tiny_droplets, n_tiny_droplets);

        Self {
            n_fruits: Some(n_fruits),
            n_droplets: Some(n_droplets),
            n_tiny_droplets: Some(n_tiny_droplets),
            n_tiny_droplet_misses: Some(n_tiny_droplet_misses),
            ..self
        }
    }

    /// Makes sure that all counts are set: counts that are all there and fit
    /// the chart stay, and any others are filled up.
    pub fn assert_hitresults(&mut self, chart: CatchObjects)
        requires
            chart.spec_max_combo() <= usize::MAX,
            spec_or_zero(old(self).n_fruits) + spec_or_zero(old(self).n_droplets) + old(
                self,
            ).n_misses <= usize::MAX,
            spec_or_zero(old(self).n_tiny_droplets) + spec_or_zero(
                old(self).n_tiny_droplet_misses,
            ) <= usize::MAX,
        ensures
            old(self).spec_hitresults_fit(chart) ==> *final(self) == *old(self),
            !old(self).spec_hitresults_fit(chart) ==> *final(self) == (Self {
                n_fruits: Some(old(self).spec_filled(chart).0 as usize),
                n_droplets: Some(old(self).spec_filled(chart).1 as usize),
                n_tiny_droplets: Some(old(self).spec_filled(chart).2 as usize),
                n_tiny_droplet_misses: Some(old(self).spec_filled(chart).3 as usize),
                ..*old(self)
            }),
            final(self).n_fruits is Some,
            final(self).n_droplets is Some,
            final(self).n_tiny_droplets is Some,
            final(self).n_tiny_droplet_misses is Some,
    {
        let max_combo = chart.max_combo();

        let correct_combo_hits = match (self.n_fruits, self.n_droplets) {
            (Some(f), Some(d)) => f + d + self.n_misses == max_combo,
            _ => false,
        };

        let correct_fruits = match self.n_fruits {
            Some(f) => f >= sub_or_zero(chart.n_fruits, self.n_misses),
            None => false,
        };

        let correct_droplets = match self.n_droplets {
            Some(d) => d >= sub_or_zero(chart.n_droplets, self.n_misses),
            None => false,
        };

        let correct_tinies = match (self.n_tiny_droplets, self.n_tiny_droplet_misses) {
            (Some(t), Some(m)) => t + m == chart.n_tiny_droplets,
            _ => false,
        };

        if !(correct_combo_hits && correct_fruits && correct_droplets && correct_tinies) {
            let mut n_fruits = match self.n_fruits {
                Some(n) => n,
                None => 0,
            };
            let mut n_droplets = match self.n_droplets {
                Some(n) => n,
                None => 0,
            };
            let mut n_tiny_droplets = match self.n_tiny_droplets {
                Some(n) => n,
                None => 0,
            };
            let n_tiny_droplet_misses = match self.n_tiny_droplet_misses {
                Some(n) => n,
                None => 0,
            };

            let missing = sub_or_zero(
                sub_or_zero(sub_or_zero(max_combo, n_fruits), n_droplets),
                self.n_misses,
            );

            let missing_fruits = sub_or_zero(missing, sub_or_zero(chart.n_droplets, n_droplets));

            n_fruits += missing_fruits;
            n_droplets += sub_or_zero(missing, missing_fruits);
            n_tiny_droplets += sub_or_zero(
                sub_or_zero(chart.n_tiny_droplets, n_tiny_droplets),
                n_tiny_droplet_misses,
            );

            self.n_fruits = Some(n_fruits);
            self.n_droplets = Some(n_droplets);
            self.n_tiny_droplets = Some(n_tiny_droplets);
            self.n_tiny_droplet_misses = Some(n_tiny_droplet_misses);
        }
    }

    /// The number of fruits, droplets and misses.
    pub fn combo_hits(&self) -> (hits: usize)
        requires
            spec_or_zero(self.n_fruits) + spec_or_zero(self.n_droplets) + self.n_misses
                <= usize::MAX,
        ensures
            hits == spec_or_zero(self.n_fruits) + spec_or_zero(self.n_droplets) + self.n_misses,
    {
        or_zero(self.n_fruits) + or_zero(self.n_droplets) + self.n_misses
    }

    /// The number of catches.
    pub fn successful_hits(&self) -> (hits: usize)
        requires
            spec_or_zero(self.n_fruits) + spec_or_zero(self.n_droplets) + spec_or_zero(
                self.n_tiny_droplets,
            ) <= usize::MAX,
        ensures
            hits == spec_or_zero(self.n_fruits) + spec_or_zero(self.n_droplets) + spec_or_zero(
                self.n_tiny_droplets,
            ),
    {
        or_zero(self.n_fruits) + or_zero(self.n_droplets) + or_zero(self.n_tiny_droplets)
    }

    /// The number of results.
    pub fn total_hits(&self) -> (hits: usize)
        requires
            spec_or_zero(self.n_fruits) + spec_or_zero(self.n_droplets) + spec_or_zero(
                self.n_tiny_droplets,
            ) + spec_or_zero(self.n_tiny_droplet_misses) + self.n_misses <= usize::MAX,
        ensures
            hits == spec_or_zero(self.n_fruits) + spec_or_zero(self.n_droplets) + spec_or_zero(
                self.n_tiny_droplets,
            ) + spec_or_zero(self.n_tiny_droplet_misses) + self.n_misses,
    {
        self.successful_hits() + or_zero(self.n_tiny_droplet_misses) + self.n_misses
    }
}

/// A count that was given, or nothing.
fn or_zero(count: Option<usize>) -> (n: usize)
    ensures
        n == spec_or_zero(count),
{
    match count {
        Some(n) => n,
        None => 0,
    }
}

/// Once the counts are filled up, fruits, droplets and misses make up at
/// least the maximum combo, and tiny droplets with their misses at least the
/// tiny droplets of the chart.
pub proof fn lemma_filled_covers_chart(pp: FruitsPP, chart: CatchObjects)
    ensures
        ({
            let filled = pp.spec_filled(chart);
            &&& filled.0 + filled.1 + pp.n_misses >= chart.spec_max_combo()
            &&& filled.2 + filled.3 >= chart.n_tiny_droplets
            &&& filled.0 >= spec_or_zero(pp.n_fruits)
            &&& filled.1 >= spec_or_zero(pp.n_droplets)
            &&& filled.2 >= spec_or_zero(pp.n_tiny_droplets)
        }),
{
}

} // verus!
