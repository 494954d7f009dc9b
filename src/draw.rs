//! Style attributes, path sections and the `\draw` statement that holds them.
use vstd::prelude::*;
use crate::coord::{point_text, Point};

verus! {

/// `parts` in order, with `sep` between each two neighbours.
pub open spec fn join(parts: Seq<Seq<char>>, sep: Seq<char>) -> Seq<char>
    decreases parts.len(),
{
    if parts.len() == 0 {
        Seq::empty()
    } else if parts.len() == 1 {
        parts[0]
    } else {
        join(parts.drop_last(), sep) + sep + parts.last()
    }
}

/// Joining two non-empty lists is joining each and putting one separator
/// between them: nothing is reordered, dropped or merged.
pub proof fn lemma_join_concat(p: Seq<Seq<char>>, q: Seq<Seq<char>>, sep: Seq<char>)
    requires
        p.len() > 0,
        q.len() > 0,
    ensures
        join(p + q, sep) == join(p, sep) + sep + join(q, sep),
    decreases q.len(),
{
    assert((p + q).drop_last() =~= p + q.drop_last());
    if q.len() == 1 {
        assert(p + q.drop_last() =~= p);
    } else {
        lemma_join_concat(p, q.drop_last(), sep);
        assert(join(p + q, sep) =~= join(p, sep) + sep + join(q, sep));
    }
}

/// One style entry of a `\draw` statement.
#[derive(Clone, Debug, PartialEq, Eq)]
pub enum Attribute {
    /// A bare keyword, such as `fill`.
    Setting(String),
    /// A `key=value` pair, such as `line width=1`.
    Param(String, String),
}

/// `keyword`, or `key=value`.
pub open spec fn attr_text(a: Attribute) -> Seq<char> {
    match a {
        Attribute::Setting(s) => s@,
        Attribute::Param(k, v) => k@ + "="@ + v@,
    }
}

/// The attributes' texts joined by a bare comma.
pub open spec fn attrs_text(attrs: Seq<Attribute>) -> Seq<char> {
    join(attrs.map_values(|a: Attribute| attr_text(a)), ","@)
}

impl Attribute {
    pub fn setting(s: &str) -> (r: Attribute)
        ensures
            r matches Attribute::Setting(t) && t@ == s@,
    {
        Attribute::Setting(s.to_owned())
    }

    pub fn param(k: &str, v: &str) -> (r: Attribute)
        ensures
            r matches Attribute::Param(a, b) && a@ == k@ && b@ == v@,
    {
        Attribute::Param(k.to_owned(), v.to_owned())
    }

    /// Appends the text of this attribute to `out`.
    pub fn push_text(&self, out: &mut String)
        ensures
            final(out)@ == old(out)@ + attr_text(*self),
    {
        match self {
            Attribute::Setting(s) => {
                out.append(s.as_str());
            },
            Attribute::Param(k, v) => {
                out.append(k.as_str());
                out.append("=");
                out.append(v.as_str());
                assert(final(out)@ =~= old(out)@ + attr_text(*self));
            },
        }
    }

    /// `keyword`, or `key=value`.
    pub fn to_string(&self) -> (r: String)
        ensures
            r@ == attr_text(*self),
    {
        let mut out = String::new();
        self.push_text(&mut out);
        assert(out@ =~= attr_text(*self));
        out
    }
}

/// The attribute list: each attribute's text, in order, joined by `,`.
pub fn attributes_to_tikz(attrs: &[Attribute]) -> (r: String)
    ensures
        r@ == attrs_text(attrs@),
{
    let mut out = String::new();
    let mut i: usize = 0;
    proof {
        reveal_strlit(",");
    }
    while i < attrs.len()
        invariant
            0 <= i <= attrs@.len(),
            out@ == attrs_text(attrs@.subrange(0, i as int)),
        decreases attrs@.len() - i,
    {
        if i > 0 {
            out.append(",");
        }
        attrs[i].push_text(&mut out);
        proof {
            let f = |a: Attribute| attr_text(a);
            let next = attrs@.subrange(0, i + 1).map_values(f);
            assert(next.drop_last() =~= attrs@.subrange(0, i as int).map_values(f));
            assert(next.last() == attr_text(attrs@[i as int]));
            assert(out@ =~= join(next, ","@));
        }
        i = i + 1;
    }
    assert(attrs@.subrange(0, attrs@.len() as int) =~= attrs@);
    out
}

/// The attribute list keeps the order of its attributes and puts a single
/// comma, with no whitespace, between neighbours.
pub proof fn lemma_attribute_list_order(a: Seq<Attribute>, b: Seq<Attribute>)
    requires
        a.len() > 0,
        b.len() > 0,
    ensures
        attrs_text(a + b) == attrs_text(a) + seq![','] + attrs_text(b),
        attrs_text(seq![a[0]]) == attr_text(a[0]),
{
    let f = |x: Attribute| attr_text(x);
    assert((a + b).map_values(f) =~= a.map_values(f) + b.map_values(f));
    lemma_join_concat(a.map_values(f), b.map_values(f), ","@);
    reveal_strlit(",");
    assert(","@ =~= seq![',']);
    assert(seq![a[0]].map_values(f) =~= seq![attr_text(a[0])]);
}

/// One segment of a path, in drawing order.
#[derive(Clone, Copy, Debug, PartialEq, Eq)]
pub enum PathSection {
    Move(Point),
    Line(Point),
    /// First control point, second control point, end point.
    Curve(Point, Point, Point),
    Cycle,
}

pub open spec fn section_text(s: PathSection) -> Seq<char> {
    match s {
        PathSection::Move(p) => point_text(p),
        PathSection::Line(p) => "--"@ + point_text(p),
        PathSection::Curve(c1, c2, p) => ".. controls "@ + point_text(c1) + " and "@ + point_text(c2)
            + " .. "@ + point_text(p),
        PathSection::Cycle => "--cycle"@,
    }
}

/// The sections' texts joined by a single space.
pub open spec fn sections_text(sections: Seq<PathSection>) -> Seq<char> {
    join(sections.map_values(|s: PathSection| section_text(s)), " "@)
}

impl PathSection {
    /// Appends the text of this section to `out`.
    pub fn push_text(&self, out: &mut String)
        ensures
            final(out)@ == old(out)@ + section_text(*self),
    {
        match self {
            PathSection::Move(p) => {
                p.push_text(out);
            },
            PathSection::Line(p) => {
                out.append("--");
                p.push_text(out);
                assert(final(out)@ =~= old(out)@ + section_text(*self));
            },
            PathSection::Curve(c1, c2, p) => {
                out.append(".. controls ");
                c1.push_text(out);
                out.append(" and ");
                c2.push_text(out);
                out.append(" .. ");
                p.push_text(out);
                assert(final(out)@ =~= old(out)@ + section_text(*self));
            },
            PathSection::Cycle => {
                out.append("--cycle");
            },
        }
    }

    pub fn to_string(&self) -> (r: String)
        ensures
            r@ == section_text(*self),
    {
        let mut out = String::new();
        self.push_text(&mut out);
        assert(out@ =~= section_text(*self));
        out
    }
}

/// The section list keeps the order of its sections, drops none and merges
/// none: two lists rendered one after the other, with one space between.
pub proof fn lemma_section_list_order(a: Seq<PathSection>, b: Seq<PathSection>)
    requires
        a.len() > 0,
        b.len() > 0,
    ensures
        sections_text(a + b) == sections_text(a) + seq![' '] + sections_text(b),
        sections_text(seq![a[0]]) == section_text(a[0]),
{
    let f = |x: PathSection| section_text(x);
    assert((a + b).map_values(f) =~= a.map_values(f) + b.map_values(f));
    lemma_join_concat(a.map_values(f), b.map_values(f), " "@);
    reveal_strlit(" ");
    assert(" "@ =~= seq![' ']);
    assert(seq![a[0]].map_values(f) =~= seq![section_text(a[0])]);
}

/// The section list: each section's text, in order, joined by one space.
pub fn sections_to_tikz(sections: &[PathSection]) -> (r: String)
    ensures
        r@ == sections_text(sections@),
{
    let mut out = String::new();
    let mut i: usize = 0;
    proof {
        reveal_strlit(" ");
    }
    while i < sections.len()
        invariant
            0 <= i <= sections@.len(),
            out@ == sections_text(sections@.subrange(0, i as int)),
        decreases sections@.len() - i,
    {
        if i > 0 {
            out.append(" ");
        }
        sections[i].push_text(&mut out);
        proof {
            let f = |s: PathSection| section_text(s);
            let next = sections@.subrange(0, i + 1).map_values(f);
            assert(next.drop_last() =~= sections@.subrange(0, i as int).map_values(f));
            assert(next.last() == section_text(sections@[i as int]));
            assert(out@ =~= join(next, " "@));
        }
        i = i + 1;
    }
    assert(sections@.subrange(0, sections@.len() as int) =~= sections@);
    out
}

/// A TikZ `\draw` statement: its style attributes and its path.
#[derive(Clone, Debug, PartialEq, Eq)]
pub struct TikzDraw {
    attributes: Vec<Attribute>,
    path_sections: Vec<PathSection>,
}

/// `\draw[attrs] sections ;`
pub open spec fn draw_text(attributes: Seq<Attribute>, sections: Seq<PathSection>) -> Seq<char> {
    "\\draw["@ + attrs_text(attributes) + "] "@ + sections_text(sections) + " ;"@
}

impl TikzDraw {
    pub closed spec fn attributes(&self) -> Seq<Attribute> {
        self.attributes@
    }

    pub closed spec fn path_sections(&self) -> Seq<PathSection> {
        self.path_sections@
    }

    pub fn new(attributes: Vec<Attribute>, path_sections: Vec<PathSection>) -> (r: TikzDraw)
        ensures
            r.attributes() == attributes@,
            r.path_sections() == path_sections@,
    {
        TikzDraw { attributes, path_sections }
    }

    /// The statement's text; rendering reads the statement and leaves it as
    /// it was.
    pub fn to_string(&self) -> (r: String)
        ensures
            r@ == draw_text(self.attributes(), self.path_sections()),
    {
        let attrs = attributes_to_tikz(self.attributes.as_slice());
        let path = sections_to_tikz(self.path_sections.as_slice());
        let mut out = String::new();
        out.append("\\draw[");
        out.append(attrs.as_str());
        out.append("] ");
        out.append(path.as_str());
        out.append(" ;");
        assert(out@ =~= draw_text(self.attributes(), self.path_sections()));
        out
    }
}

/// Rendering is a function of the statement's contents: two statements that
/// hold the same attributes and sections, or one statement rendered twice,
/// give the same text.
pub proof fn lemma_render_deterministic(a: TikzDraw, b: TikzDraw)
    requires
        a.attributes() == b.attributes(),
        a.path_sections() == b.path_sections(),
    ensures
        draw_text(a.attributes(), a.path_sections()) == draw_text(b.attributes(), b.path_sections()),
{
}

} // verus!
