//! Lowering of syntactic paths (without angle-bracketed segments) into
//! `ModPath`s.

use vstd::prelude::*;
use vstd::string::StringExecFns;
use crate::mod_path::{CrateId, ModPath, Name, PathKind, PathView, self_type_text};

verus! {

/// What the final token of one syntactic path segment is.
#[derive(Debug, Clone)]
pub enum SegmentKind {
    /// A name token, with its text.
    Name(String),
    /// `Self`
    SelfTypeKw,
    /// `crate`
    CrateKw,
    /// `self`
    SelfKw,
    /// `super`
    SuperKw,
    /// A type-level segment, such as one with generic arguments.
    Type,
}

/// One segment of a syntactic path.
#[derive(Debug, Clone)]
pub struct PathSegment {
    pub kind: SegmentKind,
    /// The segment is written with a leading `::`.
    pub coloncolon: bool,
}

/// A syntactic path: its qualifier chain flattened into segments, outermost
/// qualifier first, and whether the path is the name of a macro invocation.
#[derive(Debug, Clone)]
pub struct SyntaxPath {
    pub segments: Vec<PathSegment>,
    pub in_macro_call: bool,
}

/// The hygiene information of the expansion that a path stands in.
#[derive(Debug, Copy, Clone)]
pub struct Hygiene {
    /// The crate that `$crate` stands for, where the path comes from a macro
    /// expansion.
    pub dollar_crate: Option<CrateId>,
    /// The defining crate of a macro declared with `local_inner_macros`, where
    /// the path comes from the expansion of one.
    pub local_inner: Option<CrateId>,
}

/// What the hygiene information makes of a name token.
#[derive(Debug)]
pub enum NameResolution {
    Ident(Name),
    CrateSubst(CrateId),
}

/// The text of the crate-substitution marker.
pub open spec fn dollar_crate_text() -> Seq<char> {
    seq!['$', 'c', 'r', 'a', 't', 'e']
}

/// The crate that a name token resolves to, if it is a crate-substitution marker.
pub open spec fn resolves_to_crate(h: Hygiene, text: Seq<char>) -> Option<CrateId> {
    if text == dollar_crate_text() {
        h.dollar_crate
    } else {
        None
    }
}

impl Hygiene {
    /// A context outside any macro expansion.
    pub fn none() -> (r: Hygiene)
        ensures
            r.dollar_crate.is_none(),
            r.local_inner.is_none(),
    {
        Hygiene { dollar_crate: None, local_inner: None }
    }

    /// Resolves a name token: `$crate` inside an expansion stands for a crate,
    /// every other token for the identifier it spells.
    pub fn name_ref_to_name(&self, text: &String) -> (r: NameResolution)
        ensures
            match resolves_to_crate(*self, text@) {
                Some(k) => r == NameResolution::CrateSubst(k),
                None => r is Ident && r->Ident_0@ == text@,
            },
    {
        let marker = String::from_str("$crate");
        proof {
            reveal_strlit("$crate");
            assert("$crate"@ =~= dollar_crate_text());
        }
        if *text == marker {
            if let Some(k) = self.dollar_crate {
                return NameResolution::CrateSubst(k);
            }
        }
        NameResolution::Ident(Name::new(text.clone()))
    }

    /// The crate that a bare macro name resolves against under the legacy
    /// `local_inner_macros` rule, if that rule applies.
    pub fn local_inner_macros(&self, path: &SyntaxPath) -> (r: Option<CrateId>)
        ensures
            r == self.local_inner,
    {
        self.local_inner
    }
}

/// One step of lowering: the final segment of a path, given the lowered
/// qualifier (`None` where there is no qualifier).
pub open spec fn lower_step(prefix: Option<PathView>, seg: PathSegment, h: Hygiene) -> Option<PathView> {
    match seg.kind {
        SegmentKind::Name(t) => match resolves_to_crate(h, t@) {
            Some(k) => Some((PathKind::DollarCrate(k), Seq::empty())),
            None => match prefix {
                Some(p) => Some((p.0, p.1.push(t@))),
                None => Some((if seg.coloncolon { PathKind::Abs } else { PathKind::Plain }, seq![t@])),
            },
        },
        SegmentKind::SelfTypeKw => if prefix is Some {
            None
        } else {
            Some((PathKind::Plain, seq![self_type_text()]))
        },
        SegmentKind::CrateKw => if prefix is Some {
            None
        } else {
            Some((PathKind::Crate, Seq::empty()))
        },
        SegmentKind::SelfKw => if prefix is Some {
            None
        } else {
            Some((PathKind::Super(0), Seq::empty()))
        },
        SegmentKind::SuperKw => match prefix {
            None => Some((PathKind::Super(1), Seq::empty())),
            Some(p) => match p.0 {
                PathKind::Super(n) => if n < 255 {
                    Some((PathKind::Super((n + 1) as u8), Seq::empty()))
                } else {
                    None
                },
                _ => None,
            },
        },
        SegmentKind::Type => None,
    }
}

/// The lowering of a qualifier chain, outermost qualifier first.
pub open spec fn lower_chain(segs: Seq<PathSegment>, h: Hygiene) -> Option<PathView>
    decreases segs.len(),
{
    if segs.len() == 0 {
        None
    } else if segs.len() == 1 {
        lower_step(None, segs[0], h)
    } else {
        match lower_chain(segs.drop_last(), h) {
            None => None,
            Some(p) => lower_step(Some(p), segs.last(), h),
        }
    }
}

/// The lowering of a whole syntactic path, with the `local_inner_macros`
/// rule applied to a bare macro name.
pub open spec fn lower_path(path: SyntaxPath, h: Hygiene) -> Option<PathView> {
    match lower_chain(path.segments@, h) {
        None => None,
        Some(p) => if p.0 == PathKind::Plain && p.1.len() == 1 && path.in_macro_call
            && h.local_inner is Some {
            Some((PathKind::DollarCrate(h.local_inner->Some_0), p.1))
        } else {
            Some(p)
        },
    }
}

/// The model of an optional path.
pub open spec fn opt_view(o: Option<ModPath>) -> Option<PathView> {
    match o {
        Some(p) => Some(p@),
        None => None,
    }
}

fn lower_segment(prefix: Option<ModPath>, seg: &PathSegment, hygiene: &Hygiene) -> (r: Option<ModPath>)
    ensures
        opt_view(r) == lower_step(opt_view(prefix), *seg, *hygiene),
{
    match &seg.kind {
        SegmentKind::Name(text) => {
            match hygiene.name_ref_to_name(text) {
                NameResolution::Ident(name) => {
                    let mut res = match prefix {
                        Some(p) => p,
                        None => ModPath::from_kind(
                            if seg.coloncolon {
                                PathKind::Abs
                            } else {
                                PathKind::Plain
                            },
                        ),
                    };
                    let ghost was_prefixed = prefix is Some;
                    res.push_segment(name);
                    proof {
                        if !was_prefixed {
                            assert(res@.1 =~= seq![text@]);
                        }
                    }
                    Some(res)
                },
                NameResolution::CrateSubst(k) => {
                    Some(ModPath::from_kind(PathKind::DollarCrate(k)))
                },
            }
        },
        SegmentKind::SelfTypeKw => {
            if prefix.is_some() {
                return None;
            }
            let mut segments: Vec<Name> = Vec::new();
            segments.push(Name::self_type());
            let r = ModPath::from_segments(PathKind::Plain, segments);
            assert(r@.1 =~= seq![self_type_text()]);
            Some(r)
        },
        SegmentKind::CrateKw => {
            if prefix.is_some() {
                return None;
            }
            Some(ModPath::from_kind(PathKind::Crate))
        },
        SegmentKind::SelfKw => {
            if prefix.is_some() {
                return None;
            }
            Some(ModPath::from_kind(PathKind::Super(0)))
        },
        SegmentKind::SuperKw => {
            let nested_super_count: u8 = match prefix {
                Some(p) => {
                    match p.kind() {
                        PathKind::Super(n) => n,
                        _ => return None,
                    }
                },
                None => 0,
            };
            if nested_super_count == 255 {
                return None;
            }
            Some(ModPath::from_kind(PathKind::Super(nested_super_count + 1)))
        },
        SegmentKind::Type => {
            // not allowed in imports
            None
        },
    }
}

/// Lowers the first `end` segments of a qualifier chain.
fn convert_path(segs: &Vec<PathSegment>, end: usize, hygiene: &Hygiene) -> (r: Option<ModPath>)
    requires
        end <= segs@.len(),
    ensures
        opt_view(r) == lower_chain(segs@.take(end as int), *hygiene),
    decreases end,
{
    if end == 0 {
        return None;
    }
    let prefix = if end == 1 {
        None
    } else {
        match convert_path(segs, end - 1, hygiene) {
            Some(p) => Some(p),
            None => {
                assert(segs@.take(end as int).drop_last() =~= segs@.take(end - 1));
                return None;
            },
        }
    };
    assert(segs@.take(end as int).drop_last() =~= segs@.take(end - 1));
    assert(segs@.take(end as int).last() == segs@[end - 1]);
    lower_segment(prefix, &segs[end - 1], hygiene)
}

impl ModPath {
    /// Lowers a syntactic path; `None` where it is not a valid import-style path.
    pub fn from_src(path: &SyntaxPath, hygiene: &Hygiene) -> (r: Option<ModPath>)
        ensures
            opt_view(r) == lower_path(*path, *hygiene),
    {
        let n = path.segments.len();
        let res = convert_path(&path.segments, n, hygiene);
        assert(path.segments@.take(n as int) =~= path.segments@);
        match res {
            None => None,
            Some(mod_path) => {
                // handle local_inner_macros: a bare macro name of a crate that
                // imported macros without hygiene resolves against the crate
                // that defined the macro.
                if mod_path.is_ident() && path.in_macro_call {
                    if let Some(crate_id) = hygiene.local_inner_macros(path) {
                        return Some(mod_path.with_kind(PathKind::DollarCrate(crate_id)));
                    }
                }
                Some(mod_path)
            },
        }
    }
}

} // verus!
