//! The week-start preference.

use vstd::prelude::*;
use crate::tui::text::same_text;

verus! {

/// Which weekday opens the visible week.
#[derive(Clone, Copy, Debug, PartialEq, Eq, Structural)]
pub enum WeekStart {
    Sunday,
    Monday,
}

/// The stored name of a preference.
pub open spec fn week_start_name(w: WeekStart) -> Seq<char> {
    match w {
        WeekStart::Sunday => "sunday"@,
        WeekStart::Monday => "monday"@,
    }
}

/// The preference that a stored name stands for: only `monday` selects
/// Monday, anything else means Sunday.
pub open spec fn week_start_of_name(s: Seq<char>) -> WeekStart {
    if s == "monday"@ {
        WeekStart::Monday
    } else {
        WeekStart::Sunday
    }
}

impl WeekStart {
    /// The other preference.
    pub fn toggle(self) -> (r: Self)
        ensures
            r != self,
    {
        match self {
            WeekStart::Sunday => WeekStart::Monday,
            WeekStart::Monday => WeekStart::Sunday,
        }
    }

    /// The name under which the preference is stored.
    pub fn as_str(&self) -> (r: &'static str)
        ensures
            r@ == week_start_name(*self),
    {
        match self {
            WeekStart::Sunday => "sunday",
            WeekStart::Monday => "monday",
        }
    }
}

/// Reads a stored name: `monday` is Monday, anything else is Sunday.
impl From<&str> for WeekStart {
    fn from(value: &str) -> (r: Self) {
        if same_text(value, "monday") {
            WeekStart::Monday
        } else {
            WeekStart::Sunday
        }
    }
}

impl vstd::std_specs::convert::FromSpecImpl<&str> for WeekStart {
    open spec fn obeys_from_spec() -> bool {
        true
    }

    open spec fn from_spec(v: &str) -> WeekStart {
        week_start_of_name(v@)
    }
}

/// The preference held by a stored setting: Sunday when there is none or it
/// is not text.
pub fn week_start_setting(value: Option<&str>) -> (r: WeekStart)
    ensures
        r == match value {
            Some(s) => week_start_of_name(s@),
            None => WeekStart::Sunday,
        },
{
    match value {
        Some(s) => WeekStart::from(s),
        None => WeekStart::Sunday,
    }
}

} // verus!
