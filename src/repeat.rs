//! How often a todo comes back.
use vstd::prelude::*;
use vstd::string::StringExecFns;
use crate::text::same_text;

verus! {

/// The repeat frequency of a todo.
#[derive(Clone, Copy, Debug, PartialEq, Eq, Structural)]
pub enum RepeatType {
    NoRepeat,
    EachDay,
    EachWeek,
    EachTwoWeek,
    EachMonth,
    EachYear,
}

/// The error of reading a repeat frequency from text outside the six canonical names.
#[derive(Clone, Copy, Debug, PartialEq, Eq, Structural)]
pub struct InvalidRepeatType;

impl RepeatType {
    /// The canonical lowercase snake-case name of the frequency.
    pub open spec fn text(self) -> Seq<char> {
        match self {
            RepeatType::NoRepeat => "none"@,
            RepeatType::EachDay => "each_day"@,
            RepeatType::EachWeek => "each_week"@,
            RepeatType::EachTwoWeek => "each_two_week"@,
            RepeatType::EachMonth => "each_month"@,
            RepeatType::EachYear => "each_year"@,
        }
    }

    /// The frequency whose canonical name is `s`, if there is one.
    pub open spec fn from_text(s: Seq<char>) -> Option<RepeatType> {
        if s == "none"@ {
            Some(RepeatType::NoRepeat)
        } else if s == "each_day"@ {
            Some(RepeatType::EachDay)
        } else if s == "each_week"@ {
            Some(RepeatType::EachWeek)
        } else if s == "each_two_week"@ {
            Some(RepeatType::EachTwoWeek)
        } else if s == "each_month"@ {
            Some(RepeatType::EachMonth)
        } else if s == "each_year"@ {
            Some(RepeatType::EachYear)
        } else {
            None
        }
    }

    /// The canonical name of the frequency.
    pub fn as_str(&self) -> (r: &'static str)
        ensures
            r@ == self.text(),
    {
        match self {
            RepeatType::NoRepeat => "none",
            RepeatType::EachDay => "each_day",
            RepeatType::EachWeek => "each_week",
            RepeatType::EachTwoWeek => "each_two_week",
            RepeatType::EachMonth => "each_month",
            RepeatType::EachYear => "each_year",
        }
    }

    /// The canonical name of the frequency, as an owned string.
    pub fn to_string(&self) -> (r: String)
        ensures
            r@ == self.text(),
    {
        String::from_str(self.as_str())
    }

    /// Reads a frequency from its canonical name; any other text is refused.
    pub fn parse(s: &str) -> (r: Result<RepeatType, InvalidRepeatType>)
        ensures
            match RepeatType::from_text(s@) {
                Some(v) => r == Ok::<RepeatType, InvalidRepeatType>(v),
                None => r == Err::<RepeatType, InvalidRepeatType>(InvalidRepeatType),
            },
    {
        if same_text(s, "none") {
            Ok(RepeatType::NoRepeat)
        } else if same_text(s, "each_day") {
            Ok(RepeatType::EachDay)
        } else if same_text(s, "each_week") {
            Ok(RepeatType::EachWeek)
        } else if same_text(s, "each_two_week") {
            Ok(RepeatType::EachTwoWeek)
        } else if same_text(s, "each_month") {
            Ok(RepeatType::EachMonth)
        } else if same_text(s, "each_year") {
            Ok(RepeatType::EachYear)
        } else {
            Err(InvalidRepeatType)
        }
    }
}

impl std::str::FromStr for RepeatType {
    type Err = InvalidRepeatType;

    fn from_str(s: &str) -> Result<RepeatType, InvalidRepeatType> {
        RepeatType::parse(s)
    }
}

/// Every frequency reads back from its canonical name, and a text is read as a
/// frequency exactly when it is one of the six canonical names.
pub proof fn lemma_repeat_type_round_trip(v: RepeatType, s: Seq<char>)
    ensures
        RepeatType::from_text(v.text()) == Some(v),
        RepeatType::from_text(s) is Some <==> exists|w: RepeatType| w.text() == s,
        RepeatType::from_text(s) matches Some(w) ==> w.text() == s,
{
    lemma_names_distinct();
    if RepeatType::from_text(s) is Some {
        let w = RepeatType::from_text(s)->0;
        assert(w.text() == s);
    }
    if exists|w: RepeatType| w.text() == s {
        let w = choose|w: RepeatType| w.text() == s;
        assert(RepeatType::from_text(w.text()) == Some(w));
    }
}

proof fn lemma_names_distinct()
    ensures
        "none"@ != "each_day"@,
        "none"@ != "each_week"@,
        "none"@ != "each_two_week"@,
        "none"@ != "each_month"@,
        "none"@ != "each_year"@,
        "each_day"@ != "each_week"@,
        "each_day"@ != "each_two_week"@,
        "each_day"@ != "each_month"@,
        "each_day"@ != "each_year"@,
        "each_week"@ != "each_two_week"@,
        "each_week"@ != "each_month"@,
        "each_week"@ != "each_year"@,
        "each_two_week"@ != "each_month"@,
        "each_two_week"@ != "each_year"@,
        "each_month"@ != "each_year"@,
{
    reveal_strlit("none");
    reveal_strlit("each_day");
    reveal_strlit("each_week");
    reveal_strlit("each_two_week");
    reveal_strlit("each_month");
    reveal_strlit("each_year");
    assert("none"@.len() == 4);
    assert("each_day"@.len() == 8);
    assert("each_week"@.len() == 9);
    assert("each_two_week"@.len() == 13);
    assert("each_month"@.len() == 10);
    assert("each_year"@.len() == 9);
    assert("each_week"@[5] != "each_year"@[5]);
}

} // verus!
