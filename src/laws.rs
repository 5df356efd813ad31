//! Properties that relate the path model, its queries and lowering.

use vstd::prelude::*;
use vstd::std_specs::cmp::PartialEqSpec;
use crate::lower::{Hygiene, PathSegment, SegmentKind, SyntaxPath, lower_path, lower_step, resolves_to_crate};
use crate::mod_path::{ModPath, PathKind, PathView, is_ident_path, is_self_path, path_len};

verus! {

/// A one-segment plain path is an identifier, and that identifier is its
/// only segment.
pub proof fn law_single_ident(name: Seq<char>)
    ensures
        is_ident_path((PathKind::Plain, seq![name])),
        (PathKind::Plain, seq![name]).1[0] == name,
{
}

/// `self` alone is the current module; `self` followed by a segment is not.
pub proof fn law_is_self(name: Seq<char>)
    ensures
        is_self_path((PathKind::Super(0), Seq::empty())),
        !is_self_path((PathKind::Super(0), seq![name])),
{
}

/// The length of a path is its segment count plus the hops of its anchor.
pub proof fn law_len(segments: Seq<Seq<char>>, n: u8)
    ensures
        path_len((PathKind::Super(n), segments)) == segments.len() + n,
        path_len((PathKind::Crate, segments)) == segments.len() + 1,
        path_len((PathKind::Plain, segments)) == segments.len(),
        path_len((PathKind::Abs, segments)) == segments.len(),
{
}

/// `self`, `crate` and `Self` are valid only at the start of a path: after any
/// lowered prefix the segment fails.
pub proof fn law_initial_keywords(prefix: PathView, coloncolon: bool, h: Hygiene)
    ensures
        lower_step(Some(prefix), PathSegment { kind: SegmentKind::SelfKw, coloncolon }, h) is None,
        lower_step(Some(prefix), PathSegment { kind: SegmentKind::CrateKw, coloncolon }, h) is None,
        lower_step(Some(prefix), PathSegment { kind: SegmentKind::SelfTypeKw, coloncolon }, h) is None,
{
}

/// `super` after a prefix that is not a chain of parent modules fails; after
/// `n` parent hops it adds one more.
pub proof fn law_super_chain(prefix: PathView, coloncolon: bool, h: Hygiene)
    ensures
        !(prefix.0 is Super) ==> lower_step(Some(prefix), PathSegment { kind: SegmentKind::SuperKw, coloncolon }, h) is None,
        prefix.0 is Super && prefix.0->Super_0 < 255 ==> lower_step(
            Some(prefix),
            PathSegment { kind: SegmentKind::SuperKw, coloncolon },
            h,
        ) == Some((PathKind::Super((prefix.0->Super_0 + 1) as u8), Seq::<Seq<char>>::empty())),
{
}

/// A bare macro name, lowered where the hygiene context applies the
/// `local_inner_macros` rule for crate `k`, becomes a one-segment path
/// anchored at `k`, its segment unchanged.
pub proof fn law_local_inner_macro(path: SyntaxPath, h: Hygiene, text: String)
    requires
        path.segments@.len() == 1,
        path.segments@[0] == (PathSegment { kind: SegmentKind::Name(text), coloncolon: false }),
        path.in_macro_call,
        h.local_inner is Some,
        resolves_to_crate(h, text@) is None,
    ensures
        lower_path(path, h) == Some((PathKind::DollarCrate(h.local_inner->Some_0), seq![text@])),
{
}

/// Two paths with the same kind and segments are equal, however each was
/// built.
pub proof fn law_equal_models(a: ModPath, b: ModPath)
    requires
        a@ == b@,
    ensures
        a.eq_spec(&b),
        b.eq_spec(&a),
{
}

} // verus!
