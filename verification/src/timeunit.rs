//! Time-to-crack unit ladder: given which magnitudes (seconds, minutes, ...,
//! nonillion years) are at least one, pick the largest such unit and format
//! the result. The magnitudes themselves are computed by the caller from the
//! entropy at a fixed guess rate of 20,000,000 guesses per second.

use vstd::prelude::*;

verus! {

/// The units of the ladder, smallest to largest; `Instantly` stands for a
/// crack time below one second.
#[derive(Clone, Copy, PartialEq, Eq, Structural, Debug)]
pub enum TimeUnit {
    Instantly,
    Seconds,
    Minutes,
    Hours,
    Days,
    Years,
    Centuries,
    ThousandYears,
    MillionYears,
    BillionYears,
    TrillionYears,
    QuadrillionYears,
    QuintillionYears,
    SextillionYears,
    SeptillionYears,
    OctillionYears,
    NonillionYears,
}

/// For each unit, whether the crack time expressed in that unit is at least
/// one. The caller derives these by successive division of the seconds count:
/// minutes = seconds/60, hours = minutes/60, days = hours/24, years =
/// days/365, centuries = years/100, and thousand through nonillion years =
/// years over the powers of 1000 up to 10^30.
#[derive(Clone, Copy, PartialEq, Eq, Structural, Debug)]
pub struct MagnitudeFlags {
    pub seconds: bool,
    pub minutes: bool,
    pub hours: bool,
    pub days: bool,
    pub years: bool,
    pub centuries: bool,
    pub thousand_years: bool,
    pub million_years: bool,
    pub billion_years: bool,
    pub trillion_years: bool,
    pub quadrillion_years: bool,
    pub quintillion_years: bool,
    pub sextillion_years: bool,
    pub septillion_years: bool,
    pub octillion_years: bool,
    pub nonillion_years: bool,
}

/// Position of a unit in the ladder; larger units have larger rank.
pub open spec fn rank(u: TimeUnit) -> nat {
    match u {
        TimeUnit::Instantly => 0,
        TimeUnit::Seconds => 1,
        TimeUnit::Minutes => 2,
        TimeUnit::Hours => 3,
        TimeUnit::Days => 4,
        TimeUnit::Years => 5,
        TimeUnit::Centuries => 6,
        TimeUnit::ThousandYears => 7,
        TimeUnit::MillionYears => 8,
        TimeUnit::BillionYears => 9,
        TimeUnit::TrillionYears => 10,
        TimeUnit::QuadrillionYears => 11,
        TimeUnit::QuintillionYears => 12,
        TimeUnit::SextillionYears => 13,
        TimeUnit::SeptillionYears => 14,
        TimeUnit::OctillionYears => 15,
        TimeUnit::NonillionYears => 16,
    }
}

/// The flag of a proper unit; `Instantly` has none.
pub open spec fn flag_of(f: MagnitudeFlags, u: TimeUnit) -> bool {
    match u {
        TimeUnit::Instantly => false,
        TimeUnit::Seconds => f.seconds,
        TimeUnit::Minutes => f.minutes,
        TimeUnit::Hours => f.hours,
        TimeUnit::Days => f.days,
        TimeUnit::Years => f.years,
        TimeUnit::Centuries => f.centuries,
        TimeUnit::ThousandYears => f.thousand_years,
        TimeUnit::MillionYears => f.million_years,
        TimeUnit::BillionYears => f.billion_years,
        TimeUnit::TrillionYears => f.trillion_years,
        TimeUnit::QuadrillionYears => f.quadrillion_years,
        TimeUnit::QuintillionYears => f.quintillion_years,
        TimeUnit::SextillionYears => f.sextillion_years,
        TimeUnit::SeptillionYears => f.septillion_years,
        TimeUnit::OctillionYears => f.octillion_years,
        TimeUnit::NonillionYears => f.nonillion_years,
    }
}

/// The descending scan of the ladder: the first unit, from the largest down,
/// whose magnitude is at least one; `Instantly` when none is.
pub open spec fn spec_select_unit(f: MagnitudeFlags) -> TimeUnit {
    if f.nonillion_years {
        TimeUnit::NonillionYears
    } else if f.octillion_years {
        TimeUnit::OctillionYears
    } else if f.septillion_years {
        TimeUnit::SeptillionYears
    } else if f.sextillion_years {
        TimeUnit::SextillionYears
    } else if f.quintillion_years {
        TimeUnit::QuintillionYears
    } else if f.quadrillion_years {
        TimeUnit::QuadrillionYears
    } else if f.trillion_years {
        TimeUnit::TrillionYears
    } else if f.billion_years {
        TimeUnit::BillionYears
    } else if f.million_years {
        TimeUnit::MillionYears
    } else if f.thousand_years {
        TimeUnit::ThousandYears
    } else if f.centuries {
        TimeUnit::Centuries
    } else if f.years {
        TimeUnit::Years
    } else if f.days {
        TimeUnit::Days
    } else if f.hours {
        TimeUnit::Hours
    } else if f.minutes {
        TimeUnit::Minutes
    } else if f.seconds {
        TimeUnit::Seconds
    } else {
        TimeUnit::Instantly
    }
}

/// Pick the unit to report: the largest whose magnitude is at least one,
/// checked from nonillion years down to seconds, and `Instantly` when even
/// the seconds count is below one.
pub fn select_unit(f: &MagnitudeFlags) -> (u: TimeUnit)
    ensures
        u == spec_select_unit(*f),
{
    if f.nonillion_years {
        TimeUnit::NonillionYears
    } else if f.octillion_years {
        TimeUnit::OctillionYears
    } else if f.septillion_years {
        TimeUnit::SeptillionYears
    } else if f.sextillion_years {
        TimeUnit::SextillionYears
    } else if f.quintillion_years {
        TimeUnit::QuintillionYears
    } else if f.quadrillion_years {
        TimeUnit::QuadrillionYears
    } else if f.trillion_years {
        TimeUnit::TrillionYears
    } else if f.billion_years {
        TimeUnit::BillionYears
    } else if f.million_years {
        TimeUnit::MillionYears
    } else if f.thousand_years {
        TimeUnit::ThousandYears
    } else if f.centuries {
        TimeUnit::Centuries
    } else if f.years {
        TimeUnit::Years
    } else if f.days {
        TimeUnit::Days
    } else if f.hours {
        TimeUnit::Hours
    } else if f.minutes {
        TimeUnit::Minutes
    } else if f.seconds {
        TimeUnit::Seconds
    } else {
        TimeUnit::Instantly
    }
}

/// The descending scan picks the largest applicable unit: the chosen unit's
/// own magnitude is at least one (the boundary is inclusive on the larger
/// unit's side), every larger unit's magnitude is below one, and `Instantly`
/// comes only when no unit at all has reached one.
pub proof fn lemma_select_unit_largest(f: MagnitudeFlags)
    ensures
        spec_select_unit(f) != TimeUnit::Instantly ==> flag_of(f, spec_select_unit(f)),
        forall|v: TimeUnit| rank(v) > rank(spec_select_unit(f)) ==> !flag_of(f, v),
        spec_select_unit(f) == TimeUnit::Instantly ==> forall|v: TimeUnit| !flag_of(f, v),
{
}

/// How many decimal places the report shows for each unit: one for minutes,
/// hours, days and plain years; none for seconds, centuries and the larger
/// year buckets.
pub open spec fn spec_decimals(u: TimeUnit) -> int {
    match u {
        TimeUnit::Minutes => 1,
        TimeUnit::Hours => 1,
        TimeUnit::Days => 1,
        TimeUnit::Years => 1,
        _ => 0,
    }
}

/// The number of decimal places to format the magnitude with.
pub fn unit_decimals(u: TimeUnit) -> (d: u32)
    ensures
        d == spec_decimals(u),
{
    match u {
        TimeUnit::Minutes => 1,
        TimeUnit::Hours => 1,
        TimeUnit::Days => 1,
        TimeUnit::Years => 1,
        _ => 0,
    }
}

/// The unit's name as it appears in the report.
pub open spec fn spec_label(u: TimeUnit) -> Seq<char> {
    match u {
        TimeUnit::Instantly => "instantly"@,
        TimeUnit::Seconds => "seconds"@,
        TimeUnit::Minutes => "minutes"@,
        TimeUnit::Hours => "hours"@,
        TimeUnit::Days => "days"@,
        TimeUnit::Years => "years"@,
        TimeUnit::Centuries => "centuries"@,
        TimeUnit::ThousandYears => "thousand years"@,
        TimeUnit::MillionYears => "million years"@,
        TimeUnit::BillionYears => "billion years"@,
        TimeUnit::TrillionYears => "trillion years"@,
        TimeUnit::QuadrillionYears => "quadrillion years"@,
        TimeUnit::QuintillionYears => "quintillion years"@,
        TimeUnit::SextillionYears => "sextillion years"@,
        TimeUnit::SeptillionYears => "septillion years"@,
        TimeUnit::OctillionYears => "octillion years"@,
        TimeUnit::NonillionYears => "nonillion years"@,
    }
}

/// The unit's name as it appears in the report.
pub fn unit_label(u: TimeUnit) -> (s: String)
    ensures
        s@ == spec_label(u),
{
    match u {
        TimeUnit::Instantly => String::from_str("instantly"),
        TimeUnit::Seconds => String::from_str("seconds"),
        TimeUnit::Minutes => String::from_str("minutes"),
        TimeUnit::Hours => String::from_str("hours"),
        TimeUnit::Days => String::from_str("days"),
        TimeUnit::Years => String::from_str("years"),
        TimeUnit::Centuries => String::from_str("centuries"),
        TimeUnit::ThousandYears => String::from_str("thousand years"),
        TimeUnit::MillionYears => String::from_str("million years"),
        TimeUnit::BillionYears => String::from_str("billion years"),
        TimeUnit::TrillionYears => String::from_str("trillion years"),
        TimeUnit::QuadrillionYears => String::from_str("quadrillion years"),
        TimeUnit::QuintillionYears => String::from_str("quintillion years"),
        TimeUnit::SextillionYears => String::from_str("sextillion years"),
        TimeUnit::SeptillionYears => String::from_str("septillion years"),
        TimeUnit::OctillionYears => String::from_str("octillion years"),
        TimeUnit::NonillionYears => String::from_str("nonillion years"),
    }
}

/// The full crack-time string for a chosen unit and its already-formatted
/// magnitude: a `~` prefix, the magnitude, a space and the unit's name —
/// or the bare word `instantly`.
pub open spec fn spec_crack_time(u: TimeUnit, magnitude: Seq<char>) -> Seq<char> {
    if u == TimeUnit::Instantly {
        "instantly"@
    } else {
        "~"@ + magnitude + " "@ + spec_label(u)
    }
}

/// Compose the crack-time string from the chosen unit and the magnitude
/// formatted to that unit's number of decimal places.
pub fn format_crack_time(u: TimeUnit, magnitude: &str) -> (s: String)
    ensures
        s@ == spec_crack_time(u, magnitude@),
{
    if u == TimeUnit::Instantly {
        String::from_str("instantly")
    } else {
        let mut s = String::from_str("~");
        s.append(magnitude);
        s.append(" ");
        let label = unit_label(u);
        s.append(label.as_str());
        s
    }
}

} // verus!
