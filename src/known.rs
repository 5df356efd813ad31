//! Paths of well-known standard-library items. The allow-list is a closed
//! enumeration, so a path that is not registered cannot be named at all.

use vstd::prelude::*;
use vstd::string::StringExecFns;
use crate::mod_path::{ModPath, Name, PathKind};

verus! {

/// A registered well-known path.
#[derive(Debug, Copy, Clone, PartialEq, Eq, Structural)]
pub enum KnownPath {
    IntoIterator,
    Iterator,
    Result,
    Option,
    Range,
    RangeFrom,
    RangeFull,
    RangeTo,
    RangeToInclusive,
    RangeInclusive,
    Future,
    Try,
}

/// The segments of a well-known path, below `core`.
pub open spec fn known_segments(k: KnownPath) -> Seq<Seq<char>> {
    match k {
        KnownPath::IntoIterator => seq!["core"@, "iter"@, "IntoIterator"@],
        KnownPath::Iterator => seq!["core"@, "iter"@, "Iterator"@],
        KnownPath::Result => seq!["core"@, "result"@, "Result"@],
        KnownPath::Option => seq!["core"@, "option"@, "Option"@],
        KnownPath::Range => seq!["core"@, "ops"@, "Range"@],
        KnownPath::RangeFrom => seq!["core"@, "ops"@, "RangeFrom"@],
        KnownPath::RangeFull => seq!["core"@, "ops"@, "RangeFull"@],
        KnownPath::RangeTo => seq!["core"@, "ops"@, "RangeTo"@],
        KnownPath::RangeToInclusive => seq!["core"@, "ops"@, "RangeToInclusive"@],
        KnownPath::RangeInclusive => seq!["core"@, "ops"@, "RangeInclusive"@],
        KnownPath::Future => seq!["core"@, "future"@, "Future"@],
        KnownPath::Try => seq!["core"@, "ops"@, "Try"@],
    }
}

fn three_segments(a: &str, b: &str, c: &str) -> (r: ModPath)
    ensures
        r@ == (PathKind::Abs, seq![a@, b@, c@]),
{
    let mut segments: Vec<Name> = Vec::new();
    segments.push(Name::new(String::from_str(a)));
    segments.push(Name::new(String::from_str(b)));
    segments.push(Name::new(String::from_str(c)));
    let r = ModPath::from_segments(PathKind::Abs, segments);
    assert(r@.1 =~= seq![a@, b@, c@]);
    r
}

impl KnownPath {
    /// The absolute path of the item.
    pub fn path(self) -> (r: ModPath)
        ensures
            r@ == (PathKind::Abs, known_segments(self)),
    {
        match self {
            KnownPath::IntoIterator => three_segments("core", "iter", "IntoIterator"),
            KnownPath::Iterator => three_segments("core", "iter", "Iterator"),
            KnownPath::Result => three_segments("core", "result", "Result"),
            KnownPath::Option => three_segments("core", "option", "Option"),
            KnownPath::Range => three_segments("core", "ops", "Range"),
            KnownPath::RangeFrom => three_segments("core", "ops", "RangeFrom"),
            KnownPath::RangeFull => three_segments("core", "ops", "RangeFull"),
            KnownPath::RangeTo => three_segments("core", "ops", "RangeTo"),
            KnownPath::RangeToInclusive => three_segments("core", "ops", "RangeToInclusive"),
            KnownPath::RangeInclusive => three_segments("core", "ops", "RangeInclusive"),
            KnownPath::Future => three_segments("core", "future", "Future"),
            KnownPath::Try => three_segments("core", "ops", "Try"),
        }
    }
}

} // verus!
