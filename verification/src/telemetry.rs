//! Telemetry about the collections of a node: how much of it a given level
//! of detail asks for, and how the report is put together from what was
//! gathered. Gathering itself is left to the caller.

use vstd::prelude::*;

verus! {

/// How much detail a telemetry report is asked to hold.
#[derive(Clone, Copy, Debug, PartialEq, Eq, Structural)]
pub enum DetailsLevel {
    Level0,
    Level1,
    Level2,
}

impl DetailsLevel {
    /// The place of the level among the levels, the least detailed first.
    pub open spec fn rank(self) -> nat {
        match self {
            DetailsLevel::Level0 => 0,
            DetailsLevel::Level1 => 1,
            DetailsLevel::Level2 => 2,
        }
    }

    /// Whether this level asks for as much detail as `other`, or more.
    pub fn at_least(self, other: DetailsLevel) -> (reached: bool)
        ensures
            reached == (self.rank() >= other.rank()),
    {
        match (self, other) {
            (_, DetailsLevel::Level0) => true,
            (DetailsLevel::Level0, _) => false,
            (_, DetailsLevel::Level1) => true,
            (DetailsLevel::Level1, _) => false,
            (DetailsLevel::Level2, DetailsLevel::Level2) => true,
        }
    }
}

/// What a telemetry report is asked to hold.
#[derive(Clone, Copy, Debug, PartialEq, Eq, Structural)]
pub struct TelemetryDetail {
    pub level: DetailsLevel,
    pub histograms: bool,
}

/// What has to be gathered about the collections for a report.
#[derive(Clone, Copy, Debug, PartialEq, Eq, Structural)]
pub enum CollectionsDetail {
    /// Nothing beyond their number.
    Omitted,
    /// One aggregate for each collection.
    Aggregated,
    /// The full telemetry of each collection.
    Full,
}

impl TelemetryDetail {
    /// What to gather about the collections: nothing below the first level,
    /// aggregates at the first, full telemetry from the second on.
    pub open spec fn spec_collections_detail(self) -> CollectionsDetail {
        if self.level.rank() >= 2 {
            CollectionsDetail::Full
        } else if self.level.rank() >= 1 {
            CollectionsDetail::Aggregated
        } else {
            CollectionsDetail::Omitted
        }
    }

    /// Decides what to gather about the collections.
    pub fn collections_detail(&self) -> (needed: CollectionsDetail)
        ensures
            needed == self.spec_collections_detail(),
    {
        if self.level.at_least(DetailsLevel::Level1) {
            if self.level.at_least(DetailsLevel::Level2) {
                CollectionsDetail::Full
            } else {
                CollectionsDetail::Aggregated
            }
        } else {
            CollectionsDetail::Omitted
        }
    }
}

/// What was gathered about the collections, in their order.
pub enum Gathered<F, A> {
    Omitted,
    Aggregated(Vec<A>),
    Full(Vec<F>),
}

/// Telemetry of one collection: in full, `F`, or as an aggregate, `A`.
#[derive(Clone, Debug)]
pub enum CollectionTelemetryEnum<F, A> {
    Full(Box<F>),
    Aggregated(A),
}

/// Telemetry about all collections of a node.
#[derive(Clone, Debug)]
pub struct CollectionsTelemetry<F, A> {
    pub number_of_collections: usize,
    pub max_collections: Option<usize>,
    pub collections: Option<Vec<CollectionTelemetryEnum<F, A>>>,
}

/// The entries of a report that hold `gathered`, each in its place.
pub open spec fn reported<F, A>(gathered: Gathered<F, A>) -> Option<
    Seq<CollectionTelemetryEnum<F, A>>,
> {
    match gathered {
        Gathered::Omitted => None,
        Gathered::Aggregated(data) => Some(
            data@.map_values(|aggregate: A| CollectionTelemetryEnum::Aggregated(aggregate)),
        ),
        Gathered::Full(data) => Some(
            data@.map_values(|full: F| CollectionTelemetryEnum::Full(Box::new(full))),
        ),
    }
}

impl<F, A> CollectionsTelemetry<F, A> {
    /// What the report holds about the single collections, if anything.
    pub open spec fn entries(self) -> Option<Seq<CollectionTelemetryEnum<F, A>>> {
        match self.collections {
            Some(collections) => Some(collections@),
            None => None,
        }
    }

    /// Puts the report together: the two numbers as they are, and one entry
    /// for each collection that was gathered, in the same order.
    pub fn collect(
        number_of_collections: usize,
        max_collections: Option<usize>,
        gathered: Gathered<F, A>,
    ) -> (telemetry: Self)
        ensures
            telemetry.number_of_collections == number_of_collections,
            telemetry.max_collections == max_collections,
            telemetry.entries() == reported(gathered),
    {
        let collections = match gathered {
            Gathered::Omitted => None,
            Gathered::Aggregated(data) => {
                let ghost all = data@;
                let mut entries: Vec<CollectionTelemetryEnum<F, A>> = Vec::new();
                for aggregate in iter: data.into_iter()
                    invariant
                        iter.seq() == all,
                        entries@ == all.take(iter.index() as int).map_values(
                            |aggregate: A| CollectionTelemetryEnum::<F, A>::Aggregated(aggregate),
                        ),
                {
                    entries.push(CollectionTelemetryEnum::Aggregated(aggregate));
                }
                Some(entries)
            },
            Gathered::Full(data) => {
                let ghost all = data@;
                let mut entries: Vec<CollectionTelemetryEnum<F, A>> = Vec::new();
                for full in iter: data.into_iter()
                    invariant
                        iter.seq() == all,
                        entries@ == all.take(iter.index() as int).map_values(
                            |full: F| CollectionTelemetryEnum::<F, A>::Full(Box::new(full)),
                        ),
                {
                    entries.push(CollectionTelemetryEnum::Full(Box::new(full)));
                }
                Some(entries)
            },
        };
        CollectionsTelemetry { number_of_collections, max_collections, collections }
    }
}

} // verus!
