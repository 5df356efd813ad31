//! The canonical path value: an anchor kind and a sequence of names.

use vstd::prelude::*;
use vstd::string::StringExecFns;

verus! {

/// Identity of a compilation unit, carried as a payload of hygiene anchors.
#[derive(Debug, Copy, Clone, PartialEq, Eq, Structural, PartialOrd, Ord, Hash)]
pub struct CrateId(pub u32);

/// How a path is anchored.
#[derive(Debug, Copy, Clone, PartialEq, Eq, Structural, PartialOrd, Ord, Hash)]
pub enum PathKind {
    Plain,
    /// `self::` is `Super(0)`
    Super(u8),
    Crate,
    /// Absolute path (::foo)
    Abs,
    /// `$crate` from macro expansion
    DollarCrate(CrateId),
}

/// An identifier of the analysed program.
#[derive(Debug, Clone, Eq, PartialOrd, Ord, Hash)]
pub struct Name {
    text: String,
}

impl View for Name {
    type V = Seq<char>;

    closed spec fn view(&self) -> Seq<char> {
        self.text@
    }
}

impl PartialEq for Name {
    fn eq(&self, other: &Name) -> (r: bool) {
        self.text == other.text
    }
}

impl vstd::std_specs::cmp::PartialEqSpecImpl for Name {
    open spec fn obeys_eq_spec() -> bool {
        true
    }

    open spec fn eq_spec(&self, other: &Name) -> bool {
        self@ == other@
    }
}

/// The text of the reserved self-type name.
pub open spec fn self_type_text() -> Seq<char> {
    seq!['S', 'e', 'l', 'f']
}

impl Name {
    pub fn new(text: String) -> (r: Name)
        ensures
            r@ == text@,
    {
        Name { text }
    }

    pub fn as_str(&self) -> (r: &str)
        ensures
            r@ == self@,
    {
        self.text.as_str()
    }

    /// The reserved self-type name, `Self`.
    pub fn self_type() -> (r: Name)
        ensures
            r@ == self_type_text(),
    {
        let text = String::from_str("Self");
        proof {
            reveal_strlit("Self");
        }
        Name { text }
    }

    /// A copy whose text is the same.
    pub fn copy_name(&self) -> (r: Name)
        ensures
            r@ == self@,
    {
        Name { text: self.text.clone() }
    }
}

/// The model of a path: its kind and the text of each segment.
pub type PathView = (PathKind, Seq<Seq<char>>);

/// A canonical, comparable module path.
#[derive(Debug, Clone, Eq, PartialOrd, Ord, Hash)]
pub struct ModPath {
    pub kind: PathKind,
    segments: Vec<Name>,
}

impl View for ModPath {
    type V = PathView;

    closed spec fn view(&self) -> PathView {
        (self.kind, self.segments@.map_values(|n: Name| n@))
    }
}

/// How many hops the anchor of a path contributes.
pub open spec fn anchor_len(kind: PathKind) -> nat {
    match kind {
        PathKind::Plain => 0,
        PathKind::Super(n) => n as nat,
        PathKind::Crate => 1,
        PathKind::Abs => 0,
        PathKind::DollarCrate(_) => 1,
    }
}

/// The number of hops a path denotes: its segments and its anchor.
pub open spec fn path_len(p: PathView) -> nat {
    p.1.len() + anchor_len(p.0)
}

/// The path is literally the current module.
pub open spec fn is_self_path(p: PathView) -> bool {
    p.0 == PathKind::Super(0) && p.1.len() == 0
}

/// The path is a single plain identifier.
pub open spec fn is_ident_path(p: PathView) -> bool {
    p.0 == PathKind::Plain && p.1.len() == 1
}

/// The path is exactly the self-type name.
pub open spec fn is_self_type_path(p: PathView) -> bool {
    is_ident_path(p) && p.1[0] == self_type_text()
}

impl PartialEq for ModPath {
    fn eq(&self, other: &ModPath) -> (r: bool) {
        if self.kind != other.kind {
            return false;
        }
        if self.segments.len() != other.segments.len() {
            assert(self@.1.len() != other@.1.len());
            return false;
        }
        let n = self.segments.len();
        let mut i: usize = 0;
        while i < n
            invariant
                n == self.segments@.len(),
                n == other.segments@.len(),
                i <= n,
                forall|j: int| 0 <= j < i ==> self.segments@[j]@ == other.segments@[j]@,
            decreases n - i,
        {
            if self.segments[i].text != other.segments[i].text {
                assert(self@.1[i as int] != other@.1[i as int]);
                return false;
            }
            i += 1;
        }
        assert(self@.1 =~= other@.1);
        true
    }
}

impl vstd::std_specs::cmp::PartialEqSpecImpl for ModPath {
    open spec fn obeys_eq_spec() -> bool {
        true
    }

    open spec fn eq_spec(&self, other: &ModPath) -> bool {
        self@ == other@
    }
}

/// The separator written between the tokens of a path.
pub open spec fn sep_text() -> Seq<char> {
    seq![':', ':']
}

/// Tokens joined by the separator, with none before the first.
pub open spec fn join_tokens(toks: Seq<Seq<char>>) -> Seq<char>
    decreases toks.len(),
{
    if toks.len() == 0 {
        Seq::empty()
    } else if toks.len() == 1 {
        toks[0]
    } else {
        join_tokens(toks.drop_last()) + sep_text() + toks.last()
    }
}

/// The tokens that stand for the anchor of a path in its text.
pub open spec fn anchor_tokens(kind: PathKind) -> Seq<Seq<char>> {
    match kind {
        PathKind::Plain => Seq::empty(),
        PathKind::Super(n) => if n == 0 {
            seq![seq!['s', 'e', 'l', 'f']]
        } else {
            Seq::new(n as nat, |i: int| seq!['s', 'u', 'p', 'e', 'r'])
        },
        PathKind::Crate => seq![seq!['c', 'r', 'a', 't', 'e']],
        PathKind::Abs => seq![Seq::empty()],
        PathKind::DollarCrate(_) => seq![seq!['$', 'c', 'r', 'a', 't', 'e']],
    }
}

/// The text of a path: its anchor tokens, then its segments, joined by `::`.
pub open spec fn path_text(p: PathView) -> Seq<char> {
    join_tokens(anchor_tokens(p.0) + p.1)
}

/// Appends one token to the text of the tokens before it.
fn add_token(out: &mut String, first: bool, tok: &str, Ghost(before): Ghost<Seq<Seq<char>>>)
    requires
        first == (before.len() == 0),
        old(out)@ == join_tokens(before),
    ensures
        final(out)@ == join_tokens(before.push(tok@)),
{
    proof {
        assert(before.push(tok@).drop_last() =~= before);
        reveal_strlit("::");
    }
    if !first {
        out.append("::");
    }
    out.append(tok);
}

impl ModPath {
    pub fn from_segments(kind: PathKind, segments: Vec<Name>) -> (r: ModPath)
        ensures
            r@ == (kind, segments@.map_values(|n: Name| n@)),
    {
        ModPath { kind, segments }
    }

    /// Creates a `ModPath` from a `PathKind`, with no extra path segments.
    pub fn from_kind(kind: PathKind) -> (r: ModPath)
        ensures
            r@ == (kind, Seq::<Seq<char>>::empty()),
    {
        let r = ModPath { kind, segments: Vec::new() };
        assert(r@.1 =~= Seq::<Seq<char>>::empty());
        r
    }

    pub fn segments(&self) -> (r: &[Name])
        ensures
            r@.map_values(|n: Name| n@) == self@.1,
    {
        self.segments.as_slice()
    }

    pub fn push_segment(&mut self, segment: Name)
        ensures
            final(self)@ == (old(self)@.0, old(self)@.1.push(segment@)),
    {
        self.segments.push(segment);
        assert(self@.1 =~= old(self)@.1.push(segment@));
    }

    pub fn pop_segment(&mut self) -> (r: Option<Name>)
        ensures
            old(self)@.1.len() == 0 ==> r.is_none() && final(self)@ == old(self)@,
            old(self)@.1.len() > 0 ==> r.is_some() && r.unwrap()@ == old(self)@.1.last()
                && final(self)@ == (old(self)@.0, old(self)@.1.drop_last()),
    {
        let r = self.segments.pop();
        assert(self@.1 =~= old(self)@.1.take(self@.1.len() as int));
        proof {
            if old(self)@.1.len() > 0 {
                assert(self@.1 =~= old(self)@.1.drop_last());
            } else {
                assert(self@.1 =~= old(self)@.1);
            }
        }
        r
    }

    /// Returns the number of segments in the path (counting special segments like `$crate` and
    /// `super`).
    pub fn len(&self) -> (r: usize)
        requires
            path_len(self@) <= usize::MAX,
        ensures
            r == path_len(self@),
    {
        let anchor: usize = match self.kind {
            PathKind::Plain => 0,
            PathKind::Super(i) => i as usize,
            PathKind::Crate => 1,
            PathKind::Abs => 0,
            PathKind::DollarCrate(_) => 1,
        };
        self.segments.len() + anchor
    }

    pub fn is_ident(&self) -> (r: bool)
        ensures
            r == is_ident_path(self@),
    {
        self.as_ident().is_some()
    }

    pub fn is_self(&self) -> (r: bool)
        ensures
            r == is_self_path(self@),
    {
        self.kind == PathKind::Super(0) && self.segments.len() == 0
    }

    #[allow(non_snake_case)]
    pub fn is_Self(&self) -> (r: bool)
        ensures
            r == is_self_type_path(self@),
    {
        if self.kind != PathKind::Plain || self.segments.len() != 1 {
            return false;
        }
        let self_type = Name::self_type();
        self.segments[0] == self_type
    }

    /// The one-segment plain path of a single name.
    pub fn from_name(name: Name) -> (r: ModPath)
        ensures
            r@ == (PathKind::Plain, seq![name@]),
    {
        let ghost text = name@;
        let mut segments: Vec<Name> = Vec::new();
        segments.push(name);
        let r = ModPath::from_segments(PathKind::Plain, segments);
        assert(r@.1 =~= seq![text]);
        r
    }

    /// How the path is anchored.
    pub fn kind(&self) -> (r: PathKind)
        ensures
            r == self@.0,
    {
        self.kind
    }

    /// The same segments under another kind.
    pub fn with_kind(self, kind: PathKind) -> (r: ModPath)
        ensures
            r@ == (kind, self@.1),
    {
        ModPath { kind, segments: self.segments }
    }

    /// The text of the path, as it is shown in diagnostics.
    pub fn to_display_string(&self) -> (r: String)
        ensures
            r@ == path_text(self@),
    {
        let mut out = String::new();
        let ghost toks: Seq<Seq<char>> = Seq::empty();
        let mut first = true;
        proof {
            reveal_strlit("self");
            reveal_strlit("super");
            reveal_strlit("crate");
            reveal_strlit("$crate");
            reveal_strlit("");
            assert("self"@ =~= seq!['s', 'e', 'l', 'f']);
            assert("crate"@ =~= seq!['c', 'r', 'a', 't', 'e']);
            assert("$crate"@ =~= seq!['$', 'c', 'r', 'a', 't', 'e']);
            assert(""@ =~= Seq::<char>::empty());
        }
        match self.kind {
            PathKind::Plain => {},
            PathKind::Super(n) => {
                if n == 0 {
                    add_token(&mut out, first, "self", Ghost(toks));
                    first = false;
                    proof {
                        toks = toks.push("self"@);
                    }
                } else {
                    let mut i: u8 = 0;
                    while i < n
                        invariant
                            i <= n,
                            toks =~= Seq::new(i as nat, |j: int| seq!['s', 'u', 'p', 'e', 'r']),
                            out@ == join_tokens(toks),
                            first == (toks.len() == 0),
                        decreases n - i,
                    {
                        add_token(&mut out, first, "super", Ghost(toks));
                    first = false;
                        proof {
                            reveal_strlit("super");
                            assert("super"@ =~= seq!['s', 'u', 'p', 'e', 'r']);
                            toks = toks.push("super"@);
                        }
                        i += 1;
                    }
                }
            },
            PathKind::Crate => {
                add_token(&mut out, first, "crate", Ghost(toks));
                    first = false;
                proof {
                    toks = toks.push("crate"@);
                }
            },
            PathKind::Abs => {
                add_token(&mut out, first, "", Ghost(toks));
                    first = false;
                proof {
                    toks = toks.push(""@);
                }
            },
            PathKind::DollarCrate(_) => {
                add_token(&mut out, first, "$crate", Ghost(toks));
                    first = false;
                proof {
                    toks = toks.push("$crate"@);
                }
            },
        }
        assert(toks =~= anchor_tokens(self.kind));
        let n = self.segments.len();
        let mut i: usize = 0;
        while i < n
            invariant
                n == self.segments@.len(),
                i <= n,
                toks =~= anchor_tokens(self.kind) + self@.1.take(i as int),
                out@ == join_tokens(toks),
                first == (toks.len() == 0),
            decreases n - i,
        {
            add_token(&mut out, first, self.segments[i].as_str(), Ghost(toks));
                    first = false;
            proof {
                toks = toks.push(self@.1[i as int]);
                assert(self@.1.take(i + 1) =~= self@.1.take(i as int).push(self@.1[i as int]));
            }
            i += 1;
        }
        assert(self@.1.take(n as int) =~= self@.1);
        out
    }

    /// If this path is a single identifier, like `foo`, return its name.
    pub fn as_ident(&self) -> (r: Option<&Name>)
        ensures
            r.is_some() == is_ident_path(self@),
            r.is_some() ==> r.unwrap()@ == self@.1[0],
    {
        if self.kind != PathKind::Plain {
            return None;
        }
        if self.segments.len() == 1 {
            Some(&self.segments[0])
        } else {
            None
        }
    }
}

/// Conversion of one name into a one-segment plain path.
impl From<Name> for ModPath {
    fn from(name: Name) -> (r: ModPath)
        ensures
            r@ == (PathKind::Plain, seq![name@]),
    {
        ModPath::from_name(name)
    }
}

impl vstd::std_specs::convert::FromSpecImpl<Name> for ModPath {
    open spec fn obeys_from_spec() -> bool {
        false
    }

    open spec fn from_spec(name: Name) -> ModPath {
        arbitrary()
    }
}

} // verus!
