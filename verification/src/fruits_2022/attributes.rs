use vstd::prelude::*;

verus! {

/// The result of a difficulty calculation on a catch chart.
///
/// `stars` and `ar` hold the bits of a double.
#[derive(Clone, Debug)]
pub struct CatchDifficultyAttributes {
    /// The final star rating, as the bits of a double.
    pub stars: u64,
    /// The approach rate, as the bits of a double.
    pub ar: u64,
    /// The amount of fruits.
    pub n_fruits: u32,
    /// The amount of droplets.
    pub n_droplets: u32,
    /// The amount of tiny droplets.
    pub n_tiny_droplets: u32,
    /// Whether the chart was converted from the standard mode.
    pub is_convert: bool,
}

impl CatchDifficultyAttributes {
    /// The maximum combo as a number: every fruit and every droplet.
    pub open spec fn spec_max_combo(&self) -> int {
        self.n_fruits + self.n_droplets
    }

    /// Return the maximum combo.
    pub fn max_combo(&self) -> (combo: u32)
        requires
            self.spec_max_combo() <= u32::MAX,
        ensures
            combo == self.spec_max_combo(),
    {
        self.n_fruits + self.n_droplets
    }

    /// Whether the chart was converted from the standard mode.
    pub fn is_convert(&self) -> (convert: bool)
        ensures
            convert == self.is_convert,
    {
        self.is_convert
    }

    /// Takes over the three counts and leaves every other field as it was.
    pub fn set_object_count(&mut self, count: &ObjectCount)
        ensures
            final(self).n_fruits == count.fruits(),
            final(self).n_droplets == count.droplets(),
            final(self).n_tiny_droplets == count.tiny_droplets(),
            final(self).stars == old(self).stars,
            final(self).ar == old(self).ar,
            final(self).is_convert == old(self).is_convert,
    {
        self.n_fruits = count.fruits;
        self.n_droplets = count.droplets;
        self.n_tiny_droplets = count.tiny_droplets;
    }
}

impl Default for CatchDifficultyAttributes {
    /// The attributes of a chart without objects: a rating of `0.0` and no
    /// object of any kind.
    fn default() -> (attrs: Self)
        ensures
            attrs.stars == 0,
            attrs.ar == 0,
            attrs.n_fruits == 0,
            attrs.n_droplets == 0,
            attrs.n_tiny_droplets == 0,
            !attrs.is_convert,
    {
        Self { stars: 0, ar: 0, n_fruits: 0, n_droplets: 0, n_tiny_droplets: 0, is_convert: false }
    }
}

/// The result of a performance calculation on a catch chart.
#[derive(Clone, Debug)]
pub struct CatchPerformanceAttributes {
    /// The difficulty attributes that were used for the performance calculation.
    pub difficulty: CatchDifficultyAttributes,
    /// The final performance points, as the bits of a double.
    pub pp: u64,
}

impl CatchPerformanceAttributes {
    /// Return the star value, as the bits of a double.
    pub fn stars(&self) -> (stars: u64)
        ensures
            stars == self.difficulty.stars,
    {
        self.difficulty.stars
    }

    /// Return the performance point value, as the bits of a double.
    pub fn pp(&self) -> (pp: u64)
        ensures
            pp == self.pp,
    {
        self.pp
    }

    /// Return the maximum combo of the chart.
    pub fn max_combo(&self) -> (combo: u32)
        requires
            self.difficulty.spec_max_combo() <= u32::MAX,
        ensures
            combo == self.difficulty.spec_max_combo(),
    {
        self.difficulty.max_combo()
    }

    /// Whether the chart was converted from the standard mode.
    pub fn is_convert(&self) -> (convert: bool)
        ensures
            convert == self.difficulty.is_convert,
    {
        self.difficulty.is_convert
    }

    /// Gives up the performance value and keeps the difficulty attributes.
    pub fn into_difficulty(self) -> (attrs: CatchDifficultyAttributes)
        ensures
            attrs == self.difficulty,
    {
        self.difficulty
    }
}

impl Default for CatchPerformanceAttributes {
    fn default() -> (attrs: Self)
        ensures
            attrs.pp == 0,
            attrs.difficulty.stars == 0,
            attrs.difficulty.spec_max_combo() == 0,
            attrs.difficulty.n_tiny_droplets == 0,
    {
        Self { difficulty: CatchDifficultyAttributes::default(), pp: 0 }
    }
}

/// How many objects of each kind a chart holds.
#[derive(Clone)]
pub struct ObjectCount {
    fruits: u32,
    droplets: u32,
    tiny_droplets: u32,
}

impl ObjectCount {
    pub closed spec fn fruits(&self) -> u32 {
        self.fruits
    }

    pub closed spec fn droplets(&self) -> u32 {
        self.droplets
    }

    pub closed spec fn tiny_droplets(&self) -> u32 {
        self.tiny_droplets
    }
}

impl Default for ObjectCount {
    fn default() -> (count: Self)
        ensures
            count.fruits() == 0,
            count.droplets() == 0,
            count.tiny_droplets() == 0,
    {
        Self { fruits: 0, droplets: 0, tiny_droplets: 0 }
    }
}

/// Counts objects until a given amount of fruits and droplets was seen.
///
/// Fruits and droplets each use up one of the `take` objects that may still
/// be counted; tiny droplets use up none but are only counted while some
/// are left.
pub struct ObjectCountBuilder {
    count: ObjectCount,
    take: usize,
}

impl ObjectCountBuilder {
    /// The counts so far.
    pub closed spec fn count(&self) -> ObjectCount {
        self.count
    }

    /// How many fruits and droplets may still be counted.
    pub closed spec fn take(&self) -> usize {
        self.take
    }

    pub fn new(take: usize) -> (builder: Self)
        ensures
            builder.take() == take,
            builder.count().fruits() == 0,
            builder.count().droplets() == 0,
            builder.count().tiny_droplets() == 0,
    {
        Self { count: ObjectCount::default(), take }
    }

    pub fn into_regular(self) -> (count: ObjectCount)
        ensures
            count == self.count(),
    {
        self.count
    }

    pub fn record_fruit(&mut self)
        requires
            old(self).take() > 0 ==> old(self).count().fruits() < u32::MAX,
        ensures
            old(self).take() == 0 ==> *final(self) == *old(self),
            old(self).take() > 0 ==> {
                &&& final(self).take() == old(self).take() - 1
                &&& final(self).count().fruits() == old(self).count().fruits() + 1
                &&& final(self).count().droplets() == old(self).count().droplets()
                &&& final(self).count().tiny_droplets() == old(self).count().tiny_droplets()
            },
    {
        if self.take > 0 {
            self.take -= 1;
            self.count.fruits += 1;
        }
    }

    pub fn record_droplet(&mut self)
        requires
            old(self).take() > 0 ==> old(self).count().droplets() < u32::MAX,
        ensures
            old(self).take() == 0 ==> *final(self) == *old(self),
            old(self).take() > 0 ==> {
                &&& final(self).take() == old(self).take() - 1
                &&& final(self).count().fruits() == old(self).count().fruits()
                &&& final(self).count().droplets() == old(self).count().droplets() + 1
                &&& final(self).count().tiny_droplets() == old(self).count().tiny_droplets()
            },
    {
        if self.take > 0 {
            self.take -= 1;
            self.count.droplets += 1;
        }
    }

    pub fn record_tiny_droplets(&mut self, n: u32)
        requires
            old(self).take() > 0 ==> old(self).count().tiny_droplets() + n <= u32::MAX,
        ensures
            old(self).take() == 0 ==> *final(self) == *old(self),
            old(self).take() > 0 ==> {
                &&& final(self).take() == old(self).take()
                &&& final(self).count().fruits() == old(self).count().fruits()
                &&& final(self).count().droplets() == old(self).count().droplets()
                &&& final(self).count().tiny_droplets() == old(self).count().tiny_droplets() + n
            },
    {
        if self.take > 0 {
            self.count.tiny_droplets += n;
        }
    }
}


/// Where the difficulty attributes of a chart can be taken from: the result
/// of a difficulty calculation or that of a performance calculation.
#[derive(Clone, Debug)]
pub enum CatchAttributeProvider {
    Difficulty(CatchDifficultyAttributes),
    Performance(CatchPerformanceAttributes),
}

impl CatchAttributeProvider {
    /// The difficulty attributes that the result holds.
    pub fn attributes(self) -> (attrs: CatchDifficultyAttributes)
        ensures
            attrs == match self {
                CatchAttributeProvider::Difficulty(attrs) => attrs,
                CatchAttributeProvider::Performance(attrs) => attrs.difficulty,
            },
    {
        match self {
            CatchAttributeProvider::Difficulty(attrs) => attrs,
            CatchAttributeProvider::Performance(attrs) => attrs.difficulty,
        }
    }
}

} // verus!
