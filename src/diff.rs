use vstd::prelude::*;

verus! {

/// How much warmer or colder one average is than another.
#[derive(Debug, Clone, Copy, PartialEq, Eq, Structural)]
pub enum TempDifference {
    MuchColder,
    Colder,
    Same,
    Warmer,
    MuchWarmer,
}

/// Ten degrees, in hundredths of a degree.
pub const MUCH: i64 = 1000;

/// Five degrees, in hundredths of a degree.
pub const SOME: i64 = 500;

/// The bucket of a change `delta` (in hundredths of a degree). The comparisons are
/// strict, so a change of exactly five or ten degrees falls into the milder bucket.
pub open spec fn classify(delta: int) -> TempDifference {
    if delta > MUCH {
        TempDifference::MuchWarmer
    } else if delta > SOME {
        TempDifference::Warmer
    } else if delta < -MUCH {
        TempDifference::MuchColder
    } else if delta < -SOME {
        TempDifference::Colder
    } else {
        TempDifference::Same
    }
}

/// The words that describe a bucket in the report.
pub open spec fn label_of(d: TempDifference) -> Seq<char> {
    match d {
        TempDifference::MuchColder => "much colder"@,
        TempDifference::Colder => "colder"@,
        TempDifference::Same => "about the same"@,
        TempDifference::Warmer => "warmer"@,
        TempDifference::MuchWarmer => "much warmer"@,
    }
}

impl TempDifference {
    /// Compares the average `to` against the earlier average `from`
    /// (both in hundredths of a degree).
    pub fn from(from: i64, to: i64) -> (r: Self)
        ensures
            r == classify(to - from),
    {
        let delta: i128 = to as i128 - from as i128;
        if delta > MUCH as i128 {
            TempDifference::MuchWarmer
        } else if delta > SOME as i128 {
            TempDifference::Warmer
        } else if delta < -(MUCH as i128) {
            TempDifference::MuchColder
        } else if delta < -(SOME as i128) {
            TempDifference::Colder
        } else {
            TempDifference::Same
        }
    }

    /// The human-readable words for this bucket.
    pub fn label(&self) -> (r: &'static str)
        ensures
            r@ == label_of(*self),
    {
        match self {
            TempDifference::MuchColder => "much colder",
            TempDifference::Colder => "colder",
            TempDifference::Same => "about the same",
            TempDifference::Warmer => "warmer",
            TempDifference::MuchWarmer => "much warmer",
        }
    }
}

} // verus!
