//! The geometry model and the document compiler.

use std::collections::HashMap;

use vstd::prelude::*;
use vstd::string::StringExecFns;

use crate::decimal::append_i64;
use crate::decimal::int_rep;

verus! {

/// Mathematical value of a [`Point`]: exact integer coordinates.
#[verifier::ext_equal]
pub ghost struct PointV {
    pub x: int,
    pub y: int,
}

/// A 2-D point with exact whole-number coordinates.
#[derive(Clone, Copy)]
pub struct Point {
    x: i64,
    y: i64,
}

impl View for Point {
    type V = PointV;

    closed spec fn view(&self) -> PointV {
        PointV { x: self.x as int, y: self.y as int }
    }
}

impl Point {
    pub fn new(x: i64, y: i64) -> (p: Point)
        ensures
            p@ == (PointV { x: x as int, y: y as int }),
    {
        Point { x, y }
    }

    /// Shifts the point in place by `(tx, ty)`.
    pub fn translate(&mut self, tx: i64, ty: i64)
        requires
            i64::MIN <= old(self)@.x + tx <= i64::MAX,
            i64::MIN <= old(self)@.y + ty <= i64::MAX,
        ensures
            final(self)@ == (PointV { x: old(self)@.x + tx, y: old(self)@.y + ty }),
    {
        self.x = self.x + tx;
        self.y = self.y + ty;
    }

    /// Renders the point as `(x, y)`.
    pub fn to_string(&self) -> (r: String)
        ensures
            r@ == point_display(self@),
    {
        let mut s = String::new();
        proof {
            reveal_strlit("(");
            reveal_strlit(", ");
            reveal_strlit(")");
            assert("("@ =~= seq!['(']);
            assert(", "@ =~= seq![',', ' ']);
            assert(")"@ =~= seq![')']);
        }
        s.append("(");
        append_i64(&mut s, self.x);
        s.append(", ");
        append_i64(&mut s, self.y);
        s.append(")");
        proof {
            assert(s@ =~= point_display(self@));
        }
        s
    }
}

/// How a point reads in a path's textual form: `(x, y)`.
pub open spec fn point_display(p: PointV) -> Seq<char> {
    seq!['('] + int_rep(p.x) + seq![',', ' '] + int_rep(p.y) + seq![')']
}

/// The body of a path's textual form: every point followed by a comma,
/// the trailing comma included.
pub open spec fn points_display(pts: Seq<PointV>) -> Seq<char>
    decreases pts.len(),
{
    if pts.len() == 0 {
        Seq::<char>::empty()
    } else {
        points_display(pts.drop_last()) + point_display(pts.last()) + seq![',']
    }
}

/// A path's textual form: the points in order between `<` and `>`.
pub open spec fn path_display(pts: Seq<PointV>) -> Seq<char> {
    seq!['<'] + points_display(pts) + seq!['>']
}

/// The coordinates of one point inside the `d` attribute: `x y ` with a
/// trailing space.
pub open spec fn coord_pair(p: PointV) -> Seq<char> {
    int_rep(p.x) + seq![' '] + int_rep(p.y) + seq![' ']
}

/// The line-to commands for every point after the first: `L` then the
/// point's coordinates, in order.
pub open spec fn line_cmds(pts: Seq<PointV>) -> Seq<char>
    decreases pts.len(),
{
    if pts.len() == 0 {
        Seq::<char>::empty()
    } else {
        line_cmds(pts.drop_last()) + seq!['L'] + coord_pair(pts.last())
    }
}

/// The whole `<path>` element for a point sequence: empty for an empty
/// sequence, otherwise a move-to of the first point and a line-to of each
/// point after it.
pub open spec fn svg_path_elem(pts: Seq<PointV>) -> Seq<char> {
    if pts.len() == 0 {
        Seq::<char>::empty()
    } else {
        "<path d=\""@ + seq!['M'] + coord_pair(pts[0]) + line_cmds(pts.drop_first()) + "\"/>"@
    }
}

/// A point sequence shifted by `(tx, ty)`.
pub open spec fn translate_seq(s: Seq<PointV>, tx: int, ty: int) -> Seq<PointV> {
    s.map_values(|p: PointV| PointV { x: p.x + tx, y: p.y + ty })
}

/// Translation is invertible: shifting by `(tx, ty)` and then by
/// `(-tx, -ty)` restores every point exactly.
pub proof fn lemma_translate_involutive(s: Seq<PointV>, tx: int, ty: int)
    ensures
        translate_seq(translate_seq(s, tx, ty), -tx, -ty) == s,
{
    assert(translate_seq(translate_seq(s, tx, ty), -tx, -ty) =~= s);
}

/// A path is empty exactly when nothing was ever appended to it:
/// construction yields the empty sequence, and a sequence that has seen at
/// least one append is never empty. With `Path::is_empty`'s contract this
/// makes the emptiness test answer whether any `add_point` call has
/// occurred since `Path::new`.
pub proof fn lemma_empty_iff_never_appended(s: Seq<PointV>, p: PointV)
    ensures
        Seq::<PointV>::empty().len() == 0,
        s.push(p).len() > 0,
{
}

/// An ordered sequence of points, read as a polyline.
pub struct Path {
    points: Vec<Point>,
}

impl View for Path {
    type V = Seq<PointV>;

    closed spec fn view(&self) -> Seq<PointV> {
        self.points@.map_values(|p: Point| p@)
    }
}

impl Path {
    pub fn new() -> (p: Path)
        ensures
            p@ == Seq::<PointV>::empty(),
    {
        let p = Path { points: Vec::new() };
        proof {
            assert(p@ =~= Seq::<PointV>::empty());
        }
        p
    }

    /// True exactly when no point has been appended since construction.
    pub fn is_empty(&mut self) -> (r: bool)
        ensures
            *final(self) == *old(self),
            r == (old(self)@.len() == 0),
    {
        self.points.len() == 0
    }

    /// Appends the point `(x, y)` at the end of the sequence.
    pub fn add_point(&mut self, x: i64, y: i64)
        ensures
            final(self)@ == old(self)@.push(PointV { x: x as int, y: y as int }),
    {
        self.points.push(Point::new(x, y));
        proof {
            assert(self@ =~= old(self)@.push(PointV { x: x as int, y: y as int }));
        }
    }

    /// Shifts every point by `(tx, ty)`, in sequence order.
    pub fn translate(&mut self, tx: i64, ty: i64)
        requires
            forall|j: int|
                0 <= j < old(self)@.len() ==> i64::MIN <= #[trigger] old(self)@[j].x + tx
                    <= i64::MAX && i64::MIN <= old(self)@[j].y + ty <= i64::MAX,
        ensures
            final(self)@ == translate_seq(old(self)@, tx as int, ty as int),
    {
        let mut i: usize = 0;
        while i < self.points.len()
            invariant
                i <= self.points@.len(),
                self.points@.len() == old(self)@.len(),
                forall|j: int|
                    0 <= j < old(self)@.len() ==> i64::MIN <= #[trigger] old(self)@[j].x + tx
                        <= i64::MAX && i64::MIN <= old(self)@[j].y + ty <= i64::MAX,
                forall|j: int| i <= j < self.points@.len() ==> self.points@[j]@ == old(self)@[j],
                forall|j: int|
                    0 <= j < i ==> self.points@[j]@ == (PointV {
                        x: old(self)@[j].x + tx,
                        y: old(self)@[j].y + ty,
                    }),
            decreases self.points@.len() - i,
        {
            proof {
                assert(self.points@[i as int]@ == old(self)@[i as int]);
            }
            self.points[i].translate(tx, ty);
            i = i + 1;
        }
        proof {
            assert(self@ =~= translate_seq(old(self)@, tx as int, ty as int));
        }
    }

    /// Renders the path as `<p1,p2,...,>`: every point's text followed by a
    /// comma, the trailing comma included, between `<` and `>`.
    pub fn to_string(&self) -> (r: String)
        ensures
            r@ == path_display(self@),
    {
        let mut s = String::new();
        proof {
            reveal_strlit("<");
            reveal_strlit(",");
            reveal_strlit(">");
            assert("<"@ =~= seq!['<']);
            assert(","@ =~= seq![',']);
            assert(">"@ =~= seq!['>']);
        }
        s.append("<");
        let mut i: usize = 0;
        while i < self.points.len()
            invariant
                i <= self.points@.len(),
                s@ == seq!['<'] + points_display(self@.take(i as int)),
                "<"@ == seq!['<'],
                ","@ == seq![','],
                ">"@ == seq!['>'],
            decreases self.points@.len() - i,
        {
            let p = self.points[i].to_string();
            s.append(p.as_str());
            s.append(",");
            proof {
                assert(self@.take(i + 1).drop_last() =~= self@.take(i as int));
                assert(self@.take(i + 1).last() == self@[i as int]);
                assert(s@ =~= seq!['<'] + points_display(self@.take(i + 1)));
            }
            i = i + 1;
        }
        s.append(">");
        proof {
            assert(self@.take(self@.len() as int) =~= self@);
            assert(s@ =~= path_display(self@));
        }
        s
    }

    /// Compiles the path to its `<path>` element: the empty string for an
    /// empty path, otherwise one element whose `d` attribute moves to the
    /// first point and draws a line to each point after it.
    pub fn make_svg_path(&mut self) -> (r: String)
        ensures
            *final(self) == *old(self),
            r@ == svg_path_elem(old(self)@),
    {
        render_svg_path(self)
    }
}

impl Clone for Path {
    /// A clone is a value snapshot: it holds the same points and is
    /// isolated from later changes to the original.
    fn clone(&self) -> (r: Self)
        ensures
            r@ == self@,
    {
        let mut pts: Vec<Point> = Vec::new();
        let mut i: usize = 0;
        while i < self.points.len()
            invariant
                i <= self.points@.len(),
                pts@.len() == i,
                forall|j: int| 0 <= j < i ==> pts@[j] == self.points@[j],
            decreases self.points@.len() - i,
        {
            pts.push(self.points[i]);
            i = i + 1;
        }
        let r = Path { points: pts };
        proof {
            assert(r@ =~= self@);
        }
        r
    }
}

/// The compilation behind [`Path::make_svg_path`], off a shared borrow so
/// the document compiler can render every stored path in turn.
fn render_svg_path(path: &Path) -> (r: String)
    ensures
        r@ == svg_path_elem(path@),
{
    let mut path_string = String::new();
    if path.points.len() == 0 {
        proof {
            assert(path_string@ =~= svg_path_elem(path@));
        }
        return path_string;
    }
    proof {
        reveal_strlit("M");
        reveal_strlit("L");
        reveal_strlit(" ");
        assert("M"@ =~= seq!['M']);
        assert("L"@ =~= seq!['L']);
        assert(" "@ =~= seq![' ']);
    }
    let mut d = String::new();
    d.append("M");
    append_i64(&mut d, path.points[0].x);
    d.append(" ");
    append_i64(&mut d, path.points[0].y);
    d.append(" ");
    proof {
        assert(path@.subrange(1, 1).len() == 0);
        assert(d@ =~= seq!['M'] + coord_pair(path@[0]) + line_cmds(path@.subrange(1, 1)));
    }
    let mut i: usize = 1;
    while i < path.points.len()
        invariant
            1 <= i <= path.points@.len(),
            path.points@.len() >= 1,
            d@ == seq!['M'] + coord_pair(path@[0]) + line_cmds(path@.subrange(1, i as int)),
            "M"@ == seq!['M'],
            "L"@ == seq!['L'],
            " "@ == seq![' '],
        decreases path.points@.len() - i,
    {
        d.append("L");
        append_i64(&mut d, path.points[i].x);
        d.append(" ");
        append_i64(&mut d, path.points[i].y);
        d.append(" ");
        proof {
            assert(path@.subrange(1, i + 1).drop_last() =~= path@.subrange(1, i as int));
            assert(path@.subrange(1, i + 1).last() == path@[i as int]);
            assert(d@ =~= seq!['M'] + coord_pair(path@[0]) + line_cmds(
                path@.subrange(1, i + 1),
            ));
        }
        i = i + 1;
    }
    path_string.append("<path d=\"");
    path_string.append(d.as_str());
    path_string.append("\"/>");
    proof {
        assert(path@.subrange(1, path@.len() as int) =~= path@.drop_first());
        assert(path_string@ =~= svg_path_elem(path@));
    }
    path_string
}

/// Mathematical value of an [`SvgGraph`]: the document's metadata and the
/// point sequences of its stored paths, in insertion order.
#[verifier::ext_equal]
pub ghost struct SvgGraphV {
    pub name: Seq<char>,
    pub width: int,
    pub height: int,
    pub paths: Seq<Seq<PointV>>,
}

/// The `<svg>` open tag with the document's dimensions.
pub open spec fn header_markup(width: int, height: int) -> Seq<char> {
    "<svg id=\"Layer_1\" data-name=\"Layer 1\" xmlns=\"http://www.w3.org/2000/svg\" width=\""@
        + int_rep(width) + "\" height=\""@ + int_rep(height) + "\" viewBox=\"0 0 "@ + int_rep(
        width,
    ) + " "@ + int_rep(height) + "\">"@
}

/// The document's title element.
pub open spec fn title_markup(name: Seq<char>) -> Seq<char> {
    "<title>"@ + name + "</title>"@
}

/// The `<path>` elements of the stored paths, compiled independently, in
/// insertion order; an empty path contributes nothing.
pub open spec fn paths_markup(ps: Seq<Seq<PointV>>) -> Seq<char>
    decreases ps.len(),
{
    if ps.len() == 0 {
        Seq::<char>::empty()
    } else {
        paths_markup(ps.drop_last()) + svg_path_elem(ps.last())
    }
}

/// The whole document: header, title, every path's element, footer.
pub open spec fn document(g: SvgGraphV) -> Seq<char> {
    header_markup(g.width, g.height) + title_markup(g.name) + paths_markup(g.paths) + "</svg>"@
}

/// Compilation is deterministic: two compile results taken from the same
/// graph state are byte-identical. `SvgGraph::compile` returns
/// `document(old(self)@)` and leaves the graph unchanged, so two calls in
/// succession both satisfy these premises with the same `g`.
pub proof fn lemma_compile_repeatable(g: SvgGraphV, r1: Seq<char>, r2: Seq<char>)
    requires
        r1 == document(g),
        r2 == document(g),
    ensures
        r1 == r2,
{
}

/// Copy-on-add: a graph that captured the snapshot `p` of a path compiles
/// to the old markup with exactly `p`'s own element appended before the
/// footer. The document is a function of the snapshot alone, so whatever
/// the source path later becomes cannot reach it; `SvgGraph::add_path`
/// guarantees that the stored sequence is such a value snapshot.
pub proof fn lemma_compile_after_add(g: SvgGraphV, g1: SvgGraphV, p: Seq<PointV>)
    requires
        g1.name == g.name,
        g1.width == g.width,
        g1.height == g.height,
        g1.paths == g.paths.push(p),
    ensures
        document(g1) == header_markup(g.width, g.height) + title_markup(g.name) + paths_markup(
            g.paths,
        ) + svg_path_elem(p) + "</svg>"@,
{
    assert(g1.paths.drop_last() =~= g.paths);
    assert(g1.paths.last() == p);
    assert(document(g1) =~= header_markup(g.width, g.height) + title_markup(g.name)
        + paths_markup(g.paths) + svg_path_elem(p) + "</svg>"@);
}

/// A titled, dimensioned canvas holding zero or more path snapshots, ready
/// to compile to an SVG document.
pub struct SvgGraph {
    name: String,
    width: i64,
    height: i64,
    paths: Vec<Path>,
    options: HashMap<String, String>,
}

impl View for SvgGraph {
    type V = SvgGraphV;

    closed spec fn view(&self) -> SvgGraphV {
        SvgGraphV {
            name: self.name@,
            width: self.width as int,
            height: self.height as int,
            paths: self.paths@.map_values(|p: Path| p@),
        }
    }
}

impl SvgGraph {
    /// Constructs an empty document with its title and dimensions; the
    /// option mapping starts empty and plays no part in compilation.
    pub fn new(name: &str, width: i64, height: i64) -> (g: SvgGraph)
        ensures
            g@.name == name@,
            g@.width == width as int,
            g@.height == height as int,
            g@.paths == Seq::<Seq<PointV>>::empty(),
    {
        let g = SvgGraph {
            name: String::from_str(name),
            width,
            height,
            paths: Vec::new(),
            options: HashMap::new(),
        };
        proof {
            assert(g@.paths =~= Seq::<Seq<PointV>>::empty());
        }
        g
    }

    /// Appends a snapshot of `path`'s current points: later changes to the
    /// caller's path do not reach the stored copy.
    pub fn add_path(&mut self, path: &Path)
        ensures
            final(self)@.paths == old(self)@.paths.push(path@),
            final(self)@.name == old(self)@.name,
            final(self)@.width == old(self)@.width,
            final(self)@.height == old(self)@.height,
    {
        self.paths.push(path.clone());
        proof {
            assert(self@.paths =~= old(self)@.paths.push(path@));
        }
    }

    /// Compiles the document: header, title, every stored path's element in
    /// insertion order, footer. The graph itself is left unchanged, so
    /// repeated calls return identical strings.
    pub fn compile(&mut self) -> (r: String)
        ensures
            *final(self) == *old(self),
            r@ == document(old(self)@),
    {
        let mut s = String::new();
        let header = self.generate_header();
        s.append(header.as_str());
        let title = self.generate_title();
        s.append(title.as_str());
        let mut i: usize = 0;
        while i < self.paths.len()
            invariant
                i <= self.paths@.len(),
                s@ == header_markup(self@.width, self@.height) + title_markup(self@.name)
                    + paths_markup(self@.paths.take(i as int)),
            decreases self.paths@.len() - i,
        {
            let elem = render_svg_path(&self.paths[i]);
            s.append(elem.as_str());
            proof {
                assert(self@.paths.take(i + 1).drop_last() =~= self@.paths.take(i as int));
                assert(self@.paths.take(i + 1).last() == self@.paths[i as int]);
                assert(s@ =~= header_markup(self@.width, self@.height) + title_markup(self@.name)
                    + paths_markup(self@.paths.take(i + 1)));
            }
            i = i + 1;
        }
        let footer = self.generate_footer();
        s.append(footer.as_str());
        proof {
            assert(self@.paths.take(self@.paths.len() as int) =~= self@.paths);
            assert(s@ =~= document(self@));
        }
        s
    }

    /// Renders the `<svg>` open tag with this document's dimensions.
    fn generate_header(&mut self) -> (r: String)
        ensures
            *final(self) == *old(self),
            r@ == header_markup(old(self)@.width, old(self)@.height),
    {
        let mut s = String::new();
        s.append(
            "<svg id=\"Layer_1\" data-name=\"Layer 1\" xmlns=\"http://www.w3.org/2000/svg\" width=\"",
        );
        append_i64(&mut s, self.width);
        s.append("\" height=\"");
        append_i64(&mut s, self.height);
        s.append("\" viewBox=\"0 0 ");
        append_i64(&mut s, self.width);
        s.append(" ");
        append_i64(&mut s, self.height);
        s.append("\">");
        proof {
            assert(s@ =~= header_markup(self@.width, self@.height));
        }
        s
    }

    /// Renders the title element around this document's name.
    fn generate_title(&mut self) -> (r: String)
        ensures
            *final(self) == *old(self),
            r@ == title_markup(old(self)@.name),
    {
        let mut s = String::new();
        s.append("<title>");
        s.append(self.name.as_str());
        s.append("</title>");
        proof {
            assert(s@ =~= title_markup(self@.name));
        }
        s
    }

    /// Renders the closing tag of the document.
    fn generate_footer(&mut self) -> (r: String)
        ensures
            *final(self) == *old(self),
            r@ == "</svg>"@,
    {
        let mut s = String::new();
        s.append("</svg>");
        proof {
            assert(s@ =~= "</svg>"@);
        }
        s
    }
}

} // verus!
