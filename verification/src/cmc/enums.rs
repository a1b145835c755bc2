//! Enumerated columns of the destination tables.

use vstd::prelude::*;
use vstd::string::StrSliceExecFns;
use crate::text::{
    ascii_lower, ends_with, is_suffix, lowercase_of, to_ascii_lower, to_lowercase, trim, trimmed,
};

verus! {

/// The tracking status of a catalogue entry, kept in lower case.
#[derive(Clone, Debug, PartialEq, Eq)]
pub struct TrackingStatus(String);

impl View for TrackingStatus {
    type V = Seq<char>;

    closed spec fn view(&self) -> Seq<char> {
        self.0@
    }
}

impl TrackingStatus {
    /// The status named by `value`, in lower case.
    pub fn new(value: &str) -> (r: Self)
        ensures
            r@ == lowercase_of(value@),
    {
        TrackingStatus(to_lowercase(value))
    }

    /// The text of the status.
    pub fn as_str(&self) -> (r: &str)
        ensures
            r@ == self@,
    {
        self.0.as_str()
    }
}

/// The units in which a metal is quoted.
#[derive(Clone, Copy, Debug, PartialEq, Eq, Structural)]
pub enum Unit {
    TroyOunce,
    Ounce,
}

/// The unit that the name of a metal ends with.
#[derive(Clone, Copy, Debug, PartialEq, Eq, Structural)]
pub struct MetalUnit(pub Unit);

/// A space becomes an underscore; any other character stays.
pub open spec fn underscored(c: char) -> char {
    if c == ' ' {
        '_'
    } else {
        c
    }
}

/// Whether `tail` spells `label`, letter case of the basic Latin alphabet
/// set aside and a space taken for an underscore.
pub open spec fn spells(tail: Seq<char>, label: Seq<char>) -> bool {
    tail.len() == label.len() && forall|i: int|
        0 <= i < tail.len() ==> ascii_lower(underscored(#[trigger] tail[i])) == ascii_lower(
            label[i],
        )
}

/// The unit that a name in lower case ends with: the longer suffix is
/// looked for first, and a name with neither has no unit.
pub open spec fn unit_of_lowered(lname: Seq<char>) -> Option<MetalUnit> {
    if is_suffix(lname, "troy ounce"@) {
        Some(MetalUnit(Unit::TroyOunce))
    } else if is_suffix(lname, "ounce"@) {
        Some(MetalUnit(Unit::Ounce))
    } else {
        None
    }
}

/// `name` without a final spelling of `label` and without the white space
/// around what is left; `name` itself where it does not end so.
pub open spec fn suffix_trimmed(name: Seq<char>, label: Seq<char>) -> Seq<char> {
    if name.len() >= label.len() && spells(
        name.subrange(name.len() - label.len(), name.len() as int),
        label,
    ) {
        trimmed(name.take(name.len() - label.len()))
    } else {
        name
    }
}

fn spells_label(tail: &str, label: &str) -> (r: bool)
    ensures
        r == spells(tail@, label@),
{
    let n: usize = tail.unicode_len();
    if n != label.unicode_len() {
        return false;
    }
    let mut i: usize = 0;
    while i < n
        invariant
            i <= n,
            n == tail@.len(),
            n == label@.len(),
            forall|j: int|
                0 <= j < i ==> ascii_lower(underscored(#[trigger] tail@[j])) == ascii_lower(
                    label@[j],
                ),
        decreases n - i,
    {
        let c: char = tail.get_char(i);
        let shown: char = if c == ' ' {
            '_'
        } else {
            c
        };
        if to_ascii_lower(shown) != to_ascii_lower(label.get_char(i)) {
            return false;
        }
        i = i + 1;
    }
    true
}

impl MetalUnit {
    /// The name of the unit as the destination stores it.
    pub open spec fn label(self) -> Seq<char> {
        match self.0 {
            Unit::TroyOunce => "troy_ounce"@,
            Unit::Ounce => "ounce"@,
        }
    }

    /// The name of the unit as the destination stores it.
    pub fn as_str(&self) -> (r: &'static str)
        ensures
            r@ == self.label(),
    {
        match self.0 {
            Unit::TroyOunce => "troy_ounce",
            Unit::Ounce => "ounce",
        }
    }

    /// The unit that a name already in lower case ends with.
    pub fn from_lowered(lname: &str) -> (r: Option<Self>)
        ensures
            r == unit_of_lowered(lname@),
    {
        if ends_with(lname, "troy ounce") {
            Some(MetalUnit(Unit::TroyOunce))
        } else if ends_with(lname, "ounce") {
            Some(MetalUnit(Unit::Ounce))
        } else {
            None
        }
    }

    /// The unit that `name` ends with, whatever the case of its letters.
    pub fn from_suffix(name: &str) -> (r: Option<Self>)
        ensures
            r == unit_of_lowered(lowercase_of(name@)),
    {
        let lname: String = to_lowercase(name);
        Self::from_lowered(lname.as_str())
    }

    /// `name` without this unit at its end, and without the white space
    /// around the rest; `name` unchanged where it does not end with the unit.
    pub fn trim_suffix(&self, name: &str) -> (r: String)
        ensures
            r@ == suffix_trimmed(name@, self.label()),
    {
        let label: &str = self.as_str();
        let k: usize = label.unicode_len();
        let n: usize = name.unicode_len();
        if n >= k {
            let end: usize = n - k;
            if spells_label(name.substring_char(end, n), label) {
                return trim(name.substring_char(0, end));
            }
        }
        String::from_str(name)
    }
}

} // verus!
