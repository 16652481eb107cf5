use vstd::prelude::*;
use crate::diff::{classify, label_of, TempDifference};
use crate::stats::{max_of, mean_of, min_of, Stats};
use crate::text::{fixed2_text, push_fixed2, push_short, short_text};

verus! {

/// The lowest average, in hundredths of a degree, that earns a smile.
pub const PLEASANT_LOW: i64 = 6000;

/// The highest average, in hundredths of a degree, that earns a smile.
pub const PLEASANT_HIGH: i64 = 8000;

/// The word between the comparison and "yesterday".
pub open spec fn connective(d: TempDifference) -> Seq<char> {
    if d == TempDifference::Same {
        "as"@
    } else {
        "than"@
    }
}

/// The end of the sentence: a smile when the average is pleasant.
pub open spec fn ending(avg: int) -> Seq<char> {
    if PLEASANT_LOW <= avg <= PLEASANT_HIGH {
        " :)"@
    } else {
        "."@
    }
}

/// The morning sentence for a day with mean `avg`, extremes `min` and `max`
/// (hundredths of a degree), compared with yesterday as `d`.
pub open spec fn report_text(avg: int, min: int, max: int, d: TempDifference) -> Seq<char> {
    "Good morning! Today will be about "@ + fixed2_text(avg) + "°F ("@ + short_text(min)
        + " - "@ + short_text(max) + "°F); that's "@ + label_of(d) + " "@ + connective(d)
        + " yesterday"@ + ending(avg)
}

/// Writes the morning sentence from today's statistics and the comparison
/// with yesterday.
pub fn report(today: &Stats, diff: TempDifference) -> (r: String)
    ensures
        r@ == report_text(today.avg as int, today.min as int, today.max as int, diff),
{
    let mut out = String::from_str("Good morning! Today will be about ");
    push_fixed2(&mut out, today.avg);
    out.append("°F (");
    push_short(&mut out, today.min);
    out.append(" - ");
    push_short(&mut out, today.max);
    out.append("°F); that's ");
    out.append(diff.label());
    out.append(" ");
    if diff == TempDifference::Same {
        out.append("as");
    } else {
        out.append("than");
    }
    out.append(" yesterday");
    if PLEASANT_LOW <= today.avg && today.avg <= PLEASANT_HIGH {
        out.append(" :)");
    } else {
        out.append(".");
    }
    proof {
        assert(out@ =~= report_text(today.avg as int, today.min as int, today.max as int, diff));
    }
    out
}

/// The morning sentence from yesterday's and today's feels-like readings
/// (hundredths of a degree): today's statistics, and the change from
/// yesterday's mean to today's. `None` when either day has no readings.
pub fn morning_summary(yesterday: &[i64], today: &[i64]) -> (r: Option<String>)
    ensures
        r is None <==> (yesterday@.len() == 0 || today@.len() == 0),
        r matches Some(s) ==> s@ == report_text(
            mean_of(today@),
            min_of(today@),
            max_of(today@),
            classify(mean_of(today@) - mean_of(yesterday@)),
        ),
{
    let past = match Stats::from(yesterday) {
        Some(st) => st,
        None => return None,
    };
    let now = match Stats::from(today) {
        Some(st) => st,
        None => return None,
    };
    let diff = TempDifference::from(past.avg, now.avg);
    Some(report(&now, diff))
}

} // verus!
