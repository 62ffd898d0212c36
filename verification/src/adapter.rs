//! Picking the adapter to render on, and the order in which feature levels are
//! tried on it.
//!
//! An adapter's description is handled as the adapter reports it: UTF-16 code
//! units. The keyword is plain ASCII, so it occurs in the units exactly where it
//! occurs in the text that they spell.

use vstd::prelude::*;

verus! {

/// `needle` stands in `haystack` from place `at` on.
pub open spec fn occurs_at(haystack: Seq<u16>, needle: Seq<u16>, at: int) -> bool {
    &&& 0 <= at
    &&& at + needle.len() <= haystack.len()
    &&& haystack.subrange(at, at + needle.len()) == needle
}

/// `needle` stands somewhere in `haystack`.
pub open spec fn contains(haystack: Seq<u16>, needle: Seq<u16>) -> bool {
    exists|at: int| occurs_at(haystack, needle, at)
}

/// The keyword that the wanted adapter's description holds: `NVIDIA`.
pub open spec fn keyword_spec() -> Seq<u16> {
    seq![0x4Eu16, 0x56u16, 0x49u16, 0x44u16, 0x49u16, 0x41u16]
}

/// The keyword that the wanted adapter's description holds: `NVIDIA`.
pub fn keyword() -> (units: Vec<u16>)
    ensures
        units@ == keyword_spec(),
{
    let mut units: Vec<u16> = Vec::new();
    units.push(0x4E);
    units.push(0x56);
    units.push(0x49);
    units.push(0x44);
    units.push(0x49);
    units.push(0x41);
    assert(units@ =~= keyword_spec());
    units
}

/// Whether `needle` stands in `haystack` from place `at` on.
fn matches_at(haystack: &[u16], needle: &[u16], at: usize) -> (found: bool)
    requires
        at + needle@.len() <= haystack@.len(),
    ensures
        found == occurs_at(haystack@, needle@, at as int),
{
    let length: usize = haystack.len();
    let mut i: usize = 0;
    while i < needle.len()
        invariant
            i <= needle@.len(),
            at + needle@.len() <= haystack@.len(),
            haystack@.len() == length,
            forall|j: int| 0 <= j < i ==> haystack@[at + j] == needle@[j],
        decreases needle@.len() - i,
    {
        if haystack[at + i] != needle[i] {
            assert(haystack@.subrange(at as int, at + needle@.len())[i as int] != needle@[i as int]);
            return false;
        }
        i = i + 1;
    }
    assert(haystack@.subrange(at as int, at + needle@.len()) =~= needle@);
    true
}

/// Whether `keyword` stands somewhere in `description`.
pub fn description_contains(description: &[u16], keyword: &[u16]) -> (found: bool)
    ensures
        found == contains(description@, keyword@),
{
    if keyword.len() > description.len() {
        return false;
    }
    let last: usize = description.len() - keyword.len();
    let mut at: usize = 0;
    loop
        invariant
            at <= last,
            last == description@.len() - keyword@.len(),
            forall|before: int| 0 <= before < at ==> !occurs_at(description@, keyword@, before),
        decreases last - at,
    {
        if matches_at(description, keyword, at) {
            return true;
        }
        if at == last {
            return false;
        }
        at = at + 1;
    }
}

/// The adapter to render on: the first, in the order in which the adapters were
/// listed, whose description holds `keyword`; `None` exactly where none does. No
/// other adapter stands in for it.
pub fn select_adapter(descriptions: &Vec<Vec<u16>>, keyword: &[u16]) -> (chosen: Option<usize>)
    ensures
        match chosen {
            Some(index) => {
                &&& index < descriptions@.len()
                &&& contains(descriptions@[index as int]@, keyword@)
                &&& forall|before: int|
                    0 <= before < index ==> !contains(
                        #[trigger] descriptions@[before]@,
                        keyword@,
                    )
            },
            None => forall|any: int|
                0 <= any < descriptions@.len() ==> !contains(
                    #[trigger] descriptions@[any]@,
                    keyword@,
                ),
        },
{
    let mut index: usize = 0;
    while index < descriptions.len()
        invariant
            index <= descriptions@.len(),
            forall|before: int|
                0 <= before < index ==> !contains(#[trigger] descriptions@[before]@, keyword@),
        decreases descriptions@.len() - index,
    {
        if description_contains(descriptions[index].as_slice(), keyword) {
            return Some(index);
        }
        index = index + 1;
    }
    None
}

/// A feature level of the device.
#[derive(Clone, Copy, Debug, PartialEq, Eq, Structural)]
pub enum FeatureLevel {
    Level12_2,
    Level12_1,
    Level12_0,
    Level11_1,
    Level11_0,
}

/// The feature levels in the order in which they are tried: from the highest
/// down.
pub open spec fn levels() -> Seq<FeatureLevel> {
    seq![
        FeatureLevel::Level12_2,
        FeatureLevel::Level12_1,
        FeatureLevel::Level12_0,
        FeatureLevel::Level11_1,
        FeatureLevel::Level11_0,
    ]
}

/// The place of `level` in `levels`.
pub open spec fn rank(level: FeatureLevel) -> int {
    match level {
        FeatureLevel::Level12_2 => 0,
        FeatureLevel::Level12_1 => 1,
        FeatureLevel::Level12_0 => 2,
        FeatureLevel::Level11_1 => 3,
        FeatureLevel::Level11_0 => 4,
    }
}

/// The version that `level` stands for, as ten times the major number plus the
/// minor number.
pub open spec fn version(level: FeatureLevel) -> int {
    match level {
        FeatureLevel::Level12_2 => 122,
        FeatureLevel::Level12_1 => 121,
        FeatureLevel::Level12_0 => 120,
        FeatureLevel::Level11_1 => 111,
        FeatureLevel::Level11_0 => 110,
    }
}

/// The level to try after `failed` has failed, or first where nothing has been
/// tried yet.
pub open spec fn level_after(failed: Option<FeatureLevel>) -> Option<FeatureLevel> {
    match failed {
        None => Some(levels()[0]),
        Some(level) => if rank(level) + 1 < levels().len() {
            Some(levels()[rank(level) + 1])
        } else {
            None
        },
    }
}

impl FeatureLevel {
    /// The major number of the version: 12 or 11.
    pub fn major(self) -> (major: u8)
        ensures
            major == version(self) / 10,
    {
        match self {
            FeatureLevel::Level12_2 | FeatureLevel::Level12_1 | FeatureLevel::Level12_0 => 12,
            FeatureLevel::Level11_1 | FeatureLevel::Level11_0 => 11,
        }
    }

    /// The minor number of the version.
    pub fn minor(self) -> (minor: u8)
        ensures
            minor == version(self) % 10,
    {
        match self {
            FeatureLevel::Level12_2 => 2,
            FeatureLevel::Level12_1 | FeatureLevel::Level11_1 => 1,
            FeatureLevel::Level12_0 | FeatureLevel::Level11_0 => 0,
        }
    }
}

/// The feature level to try next: the highest where nothing has been tried
/// (`failed` is `None`), else the one below the level that failed; `None` where
/// the lowest has failed and nothing is left to try.
pub fn next_feature_level(failed: Option<FeatureLevel>) -> (next: Option<FeatureLevel>)
    ensures
        next == level_after(failed),
{
    match failed {
        None => Some(FeatureLevel::Level12_2),
        Some(FeatureLevel::Level12_2) => Some(FeatureLevel::Level12_1),
        Some(FeatureLevel::Level12_1) => Some(FeatureLevel::Level12_0),
        Some(FeatureLevel::Level12_0) => Some(FeatureLevel::Level11_1),
        Some(FeatureLevel::Level11_1) => Some(FeatureLevel::Level11_0),
        Some(FeatureLevel::Level11_0) => None,
    }
}

/// The levels are tried from the highest down, each once and none left out: the
/// level after a failed one is the highest below it, and nothing is left only
/// after the lowest.
pub proof fn lemma_levels_descend(failed: FeatureLevel, other: FeatureLevel)
    ensures
        levels()[rank(failed)] == failed,
        level_after(Some(failed)) matches Some(next) ==> version(next) < version(failed),
        level_after(Some(failed)) matches Some(next) ==> !(version(next) < version(other)
            < version(failed)),
        level_after(Some(failed)) is None <==> forall|level: FeatureLevel|
            version(failed) <= #[trigger] version(level),
        level_after(None) matches Some(first) && version(other) <= version(first),
{
    assert forall|level: FeatureLevel| version(FeatureLevel::Level11_0) <= #[trigger] version(
        level,
    ) by {}
    if level_after(Some(failed)) is Some {
        assert(version(FeatureLevel::Level11_0) < version(failed));
    }
}

} // verus!
