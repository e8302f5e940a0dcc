use vstd::prelude::*;

use crate::components::{ArrowHead, Line, Rectangle};
use crate::geometry::{fits_i64, length_text, Point};
use crate::text::{int_text, nat_text, push_int, push_nat};
use crate::{Error, Result};

verus! {

/// A named attribute of an element.
#[derive(Debug)]
pub struct Attribute {
    pub name: String,
    pub value: String,
}

/// An element of the document tree: a tag name, its attributes in the
/// order they were set, and its child elements.
#[derive(Debug)]
pub struct XmlElement {
    pub name: String,
    pub attributes: Vec<Attribute>,
    pub children: Vec<XmlElement>,
}

/// The attributes of `e` as (name, value) pairs.
pub open spec fn attrs_of(e: XmlElement) -> Seq<(Seq<char>, Seq<char>)> {
    e.attributes@.map_values(|a: Attribute| (a.name@, a.value@))
}

impl XmlElement {
    /// An element with the given tag, no attributes and no children.
    pub fn new(name: &str) -> (r: XmlElement)
        ensures
            r.name@ == name@,
            r.attributes@.len() == 0,
            r.children@.len() == 0,
    {
        XmlElement { name: String::from_str(name), attributes: Vec::new(), children: Vec::new() }
    }

    /// Records the attribute `name` with `value` after those already set.
    pub fn assign(&mut self, name: &str, value: String)
        ensures
            final(self).name == old(self).name,
            final(self).children == old(self).children,
            attrs_of(*final(self)) == attrs_of(*old(self)).push((name@, value@)),
    {
        let ghost before = attrs_of(*self);
        self.attributes.push(Attribute { name: String::from_str(name), value });
        assert(attrs_of(*self) =~= before.push((name@, value@)));
    }
}

/// Something that child elements can be appended to.
pub trait Node {
    /// The elements appended so far, in order.
    spec fn nodes(&self) -> Seq<XmlElement>;

    /// Appends `node`. A refusal is a `Render` error and leaves the
    /// nodes as they were.
    fn append(&mut self, node: XmlElement) -> (r: Result<()>)
        ensures
            r is Ok ==> final(self).nodes() == old(self).nodes().push(node),
            r is Err ==> r->Err_0 is Render && final(self).nodes() == old(self).nodes(),
    ;
}

impl Node for XmlElement {
    open spec fn nodes(&self) -> Seq<XmlElement> {
        self.children@
    }

    fn append(&mut self, node: XmlElement) -> (r: Result<()>) {
        self.children.push(node);
        Ok(())
    }
}

/// The id made from `prefix` and the counter value `n`.
pub open spec fn id_text(prefix: Seq<char>, n: nat) -> Seq<char> {
    if prefix.len() == 0 {
        nat_text(n)
    } else {
        prefix + "-"@ + nat_text(n)
    }
}

/// Per-pass state of a rendering: hands out ids unique within the pass.
#[derive(Debug)]
pub struct RenderState {
    id_counter: u64,
}

impl RenderState {
    /// The number of ids handed out so far.
    pub closed spec fn counter(&self) -> nat {
        self.id_counter as nat
    }

    /// A fresh id: the counter's value, after `prefix` and a dash unless
    /// `prefix` is empty. Each call moves the counter on by one.
    pub fn generate_id(&mut self, prefix: &str) -> (r: String)
        requires
            old(self).counter() < u64::MAX,
        ensures
            r@ == id_text(prefix@, old(self).counter()),
            final(self).counter() == old(self).counter() + 1,
    {
        let next_id = self.id_counter;
        self.id_counter = self.id_counter + 1;
        let mut s = String::new();
        if prefix.is_empty() {
            push_nat(&mut s, next_id);
        } else {
            s.append(prefix);
            s.append("-");
            push_nat(&mut s, next_id);
        }
        assert(s@ =~= id_text(prefix@, next_id as nat));
        s
    }
}

impl Default for RenderState {
    fn default() -> (r: RenderState)
        ensures
            r.counter() == 0,
    {
        RenderState { id_counter: 0 }
    }
}

/// Ids made from one prefix and two different counter values differ.
pub proof fn lemma_ids_unique(prefix: Seq<char>, n: nat, m: nat)
    requires
        n != m,
    ensures
        id_text(prefix, n) != id_text(prefix, m),
{
    lemma_nat_text_injective(n, m);
    if prefix.len() != 0 {
        let p = prefix + "-"@;
        if id_text(prefix, n) == id_text(prefix, m) {
            assert(nat_text(n) =~= id_text(prefix, n).skip(p.len() as int));
            assert(nat_text(m) =~= id_text(prefix, m).skip(p.len() as int));
        }
    }
}

proof fn lemma_nat_text_nonempty(n: nat)
    ensures
        nat_text(n).len() >= 1,
        n >= 10 ==> nat_text(n).len() >= 2,
    decreases n,
{
    if n >= 10 {
        lemma_nat_text_nonempty(n / 10);
    }
}

proof fn lemma_digit_char_injective(a: nat, b: nat)
    requires
        a < 10,
        b < 10,
        crate::text::digit_char(a) == crate::text::digit_char(b),
    ensures
        a == b,
{
}

proof fn lemma_nat_text_injective(n: nat, m: nat)
    ensures
        nat_text(n) == nat_text(m) ==> n == m,
    decreases n,
{
    lemma_nat_text_nonempty(n);
    lemma_nat_text_nonempty(m);
    if nat_text(n) == nat_text(m) {
        if n < 10 && m < 10 {
            assert(nat_text(n)[0] == crate::text::digit_char(n));
            assert(nat_text(m)[0] == crate::text::digit_char(m));
            lemma_digit_char_injective(n, m);
        } else if n >= 10 && m >= 10 {
            let a = nat_text(n);
            assert(a.last() == crate::text::digit_char(n % 10));
            assert(nat_text(m).last() == crate::text::digit_char(m % 10));
            lemma_digit_char_injective(n % 10, m % 10);
            assert(nat_text(n / 10) =~= a.drop_last());
            assert(nat_text(m / 10) =~= nat_text(m).drop_last());
            lemma_nat_text_injective(n / 10, m / 10);
        }
    }
}

/// Text of one path command: `cmd`, then the point's coordinates, each
/// followed by a space.
pub open spec fn command_text(cmd: Seq<char>, p: Point) -> Seq<char> {
    cmd + int_text(p.x as int) + " "@ + int_text(p.y as int) + " "@
}

/// A line-to command for each point, in order.
pub open spec fn line_to_text(ps: Seq<Point>) -> Seq<char>
    decreases ps.len(),
{
    if ps.len() == 0 {
        Seq::empty()
    } else {
        line_to_text(ps.drop_last()) + command_text("L "@, ps.last())
    }
}

/// Path data through `ps`: empty for no points, else a move-to the first
/// point and a line-to each later one.
pub open spec fn path_data(ps: Seq<Point>) -> Seq<char> {
    if ps.len() == 0 {
        Seq::empty()
    } else {
        command_text("M "@, ps[0]) + line_to_text(ps.skip(1))
    }
}

fn push_command(s: &mut String, cmd: &str, p: Point)
    ensures
        final(s)@ == old(s)@ + command_text(cmd@, p),
{
    s.append(cmd);
    push_int(s, p.x);
    s.append(" ");
    push_int(s, p.y);
    s.append(" ");
    assert(final(s)@ =~= old(s)@ + command_text(cmd@, p));
}

/// The path data through `points`.
pub fn build_path(points: &Vec<Point>) -> (r: String)
    ensures
        r@ == path_data(points@),
{
    let mut output = String::new();
    if points.len() > 0 {
        let start = points[0];
        push_command(&mut output, "M ", start);
        let mut i: usize = 1;
        assert(points@.subrange(1, 1) =~= Seq::<Point>::empty());
        while i < points.len()
            invariant
                1 <= i <= points@.len(),
                output@ == command_text("M "@, points@[0]) + line_to_text(
                    points@.subrange(1, i as int),
                ),
            decreases points@.len() - i,
        {
            let p = points[i];
            let ghost before = points@.subrange(1, i as int);
            push_command(&mut output, "L ", p);
            i = i + 1;
            let ghost after = points@.subrange(1, i as int);
            assert(after.drop_last() =~= before);
            assert(output@ =~= command_text("M "@, points@[0]) + line_to_text(after));
        }
        assert(points@.subrange(1, points@.len() as int) =~= points@.skip(1));
    }
    output
}

/// Path data for no points is empty.
pub proof fn lemma_empty_path_data(ps: Seq<Point>)
    requires
        ps.len() == 0,
    ensures
        path_data(ps) == Seq::<char>::empty(),
{
}

/// Path data for one point is a single move-to, with no line-to.
pub proof fn lemma_single_point_path_data(ps: Seq<Point>)
    requires
        ps.len() == 1,
    ensures
        path_data(ps) == "M "@ + int_text(ps[0].x as int) + " "@ + int_text(ps[0].y as int) + " "@,
{
    assert(ps.skip(1) =~= Seq::<Point>::empty());
    assert(line_to_text(ps.skip(1)) =~= Seq::<char>::empty());
    assert(path_data(ps) =~= "M "@ + int_text(ps[0].x as int) + " "@ + int_text(ps[0].y as int)
        + " "@);
}

/// The id of the arrowhead marker made when the counter stands at `n`.
pub open spec fn arrow_id(n: nat) -> Seq<char> {
    id_text("arrow"@, n)
}

/// A reference to the element with id `id`.
pub open spec fn url_text(id: Seq<char>) -> Seq<char> {
    "url(#"@ + id + ")"@
}

/// A color written as decimal channels.
pub open spec fn rgb_text(c: rgb::RGB8) -> Seq<char> {
    "rgb("@ + nat_text(c.r as nat) + ", "@ + nat_text(c.g as nat) + ", "@ + nat_text(c.b as nat)
        + ")"@
}

/// `e` is the marker drawn for arrowhead `a`, with id `id`.
pub open spec fn marker_node(a: ArrowHead, e: XmlElement, id: Seq<char>) -> bool {
    match a {
        ArrowHead::Solid => {
            &&& e.name@ == "marker"@
            &&& attrs_of(e) == seq![
                ("id"@, id),
                ("refX"@, "5"@),
                ("refY"@, "5"@),
                ("viewBox"@, "0 0 10 10"@),
                ("orient"@, "auto-start-reverse"@),
            ]
            &&& e.children@.len() == 1
            &&& e.children@[0].name@ == "path"@
            &&& attrs_of(e.children@[0]) == seq![("d"@, "M 0 0 L 10 5 L 0 10 z"@)]
            &&& e.children@[0].children@.len() == 0
        },
    }
}

/// `e` is the element drawn for rectangle `r`.
pub open spec fn rect_node(r: Rectangle, e: XmlElement) -> bool {
    &&& e.name@ == "rect"@
    &&& attrs_of(e) == seq![
        ("x"@, int_text(r.bounds.top_left.x as int)),
        ("y"@, int_text(r.bounds.top_left.y as int)),
        ("width"@, int_text(r.bounds.spec_width())),
        ("height"@, int_text(r.bounds.spec_height())),
        ("stroke-width"@, length_text(r.width, None)),
        ("stroke"@, rgb_text(r.color)),
        ("fill"@, "rgb(255,255,255)"@),
    ]
    &&& e.children@.len() == 0
}

/// The number of arrowheads a line carries.
pub open spec fn arrow_count(l: Line) -> nat {
    (if l.start_arrow is Some { 1nat } else { 0nat }) + (if l.end_arrow is Some { 1nat } else { 0nat })
}

/// The attributes of the path drawn for line `l` when the id counter
/// stood at `c` before its arrowheads were drawn.
pub open spec fn line_attrs(l: Line, c: nat) -> Seq<(Seq<char>, Seq<char>)> {
    let s: nat = if l.start_arrow is Some { 1nat } else { 0nat };
    let start = if l.start_arrow is Some {
        seq![("marker-start"@, url_text(arrow_id(c)))]
    } else {
        Seq::empty()
    };
    let end = if l.end_arrow is Some {
        seq![("marker-end"@, url_text(arrow_id(c + s)))]
    } else {
        Seq::empty()
    };
    start + end + seq![
        ("fill"@, "transparent"@),
        ("stroke"@, "black"@),
        ("stroke-width"@, length_text(l.width, None)),
        ("d"@, path_data(l.points@)),
    ]
}

/// `e` is the `i`-th element drawn for line `l` with the id counter at `c`:
/// its arrowhead markers, start first, then its path.
pub open spec fn line_node(l: Line, c: nat, i: int, e: XmlElement) -> bool {
    if i < arrow_count(l) {
        let a = if i == 0 && l.start_arrow is Some {
            l.start_arrow->0
        } else {
            l.end_arrow->0
        };
        marker_node(a, e, arrow_id((c + i) as nat))
    } else {
        &&& e.name@ == "path"@
        &&& attrs_of(e) == line_attrs(l, c)
        &&& e.children@.len() == 0
    }
}

/// A component that can be drawn into a parent node.
pub trait Renderable {
    /// What rendering hands back for elements that refer to this one.
    type Ref;

    /// Rendering may start with the id counter at `counter`.
    spec fn render_ready(&self, counter: nat) -> bool;

    /// Rendering that started with the id counter at `c0` appended `added`
    /// to the parent, left the counter at `c1` and returned `r`.
    spec fn rendered(&self, c0: nat, added: Seq<XmlElement>, c1: nat, r: Result<Self::Ref>) -> bool;

    /// Draws the component into `parent`. The parent's earlier nodes stay;
    /// the first refusal by the parent ends rendering with that error.
    fn render_to<N: Node>(&self, parent: &mut N, state: &mut RenderState) -> (r: Result<Self::Ref>)
        requires
            self.render_ready(old(state).counter()),
        ensures
            old(parent).nodes().len() <= final(parent).nodes().len(),
            final(parent).nodes().take(old(parent).nodes().len() as int) == old(parent).nodes(),
            self.rendered(
                old(state).counter(),
                final(parent).nodes().skip(old(parent).nodes().len() as int),
                final(state).counter(),
                r,
            ),
    ;
}

fn text_of(s: &str) -> (r: String)
    ensures
        r@ == s@,
{
    String::from_str(s)
}

impl Renderable for ArrowHead {
    type Ref = String;

    open spec fn render_ready(&self, counter: nat) -> bool {
        counter < u64::MAX
    }

    /// One id is used whatever happens; on success the marker is appended
    /// and its id returned.
    open spec fn rendered(&self, c0: nat, added: Seq<XmlElement>, c1: nat, r: Result<String>) -> bool {
        &&& c1 == c0 + 1
        &&& match r {
            Ok(id) => id@ == arrow_id(c0) && added.len() == 1 && marker_node(*self, added[0], id@),
            Err(e) => e is Render && added.len() == 0,
        }
    }

    fn render_to<N: Node>(&self, parent: &mut N, state: &mut RenderState) -> (r: Result<String>) {
        let mut marker = XmlElement::new("marker");
        let arrow_id = state.generate_id("arrow");
        marker.assign("id", arrow_id.clone());
        match self {
            ArrowHead::Solid => {
                marker.assign("refX", text_of("5"));
                marker.assign("refY", text_of("5"));
                marker.assign("viewBox", text_of("0 0 10 10"));
                marker.assign("orient", text_of("auto-start-reverse"));
                let mut path = XmlElement::new("path");
                path.assign("d", text_of("M 0 0 L 10 5 L 0 10 z"));
                assert(attrs_of(path) =~= seq![("d"@, "M 0 0 L 10 5 L 0 10 z"@)]);
                marker.children.push(path);
            },
        }
        assert(attrs_of(marker) =~= seq![
            ("id"@, arrow_id@),
            ("refX"@, "5"@),
            ("refY"@, "5"@),
            ("viewBox"@, "0 0 10 10"@),
            ("orient"@, "auto-start-reverse"@),
        ]);
        let ghost before = parent.nodes();
        let ghost m = marker;
        match parent.append(marker) {
            Ok(()) => {
                assert(parent.nodes().take(before.len() as int) =~= before);
                assert(parent.nodes().skip(before.len() as int) =~= seq![m]);
                Ok(arrow_id)
            },
            Err(e) => {
                assert(parent.nodes().take(before.len() as int) =~= before);
                assert(parent.nodes().skip(before.len() as int) =~= Seq::<XmlElement>::empty());
                Err(e)
            },
        }
    }
}

impl Renderable for Rectangle {
    type Ref = ();

    open spec fn render_ready(&self, counter: nat) -> bool {
        self.bounds.dims_fit()
    }

    /// No id is used; on success the rectangle's element is appended.
    open spec fn rendered(&self, c0: nat, added: Seq<XmlElement>, c1: nat, r: Result<()>) -> bool {
        &&& c1 == c0
        &&& match r {
            Ok(()) => added.len() == 1 && rect_node(*self, added[0]),
            Err(e) => e is Render && added.len() == 0,
        }
    }

    fn render_to<N: Node>(&self, parent: &mut N, state: &mut RenderState) -> (r: Result<()>) {
        let mut node = XmlElement::new("rect");
        let mut v = String::new();
        push_int(&mut v, self.bounds.left());
        node.assign("x", v);
        let mut v = String::new();
        push_int(&mut v, self.bounds.top());
        node.assign("y", v);
        let mut v = String::new();
        push_int(&mut v, self.bounds.width());
        node.assign("width", v);
        let mut v = String::new();
        push_int(&mut v, self.bounds.height());
        node.assign("height", v);
        node.assign("stroke-width", self.width.to_string());
        let mut v = text_of("rgb(");
        push_nat(&mut v, self.color.r as u64);
        v.append(", ");
        push_nat(&mut v, self.color.g as u64);
        v.append(", ");
        push_nat(&mut v, self.color.b as u64);
        v.append(")");
        assert(v@ =~= rgb_text(self.color));
        node.assign("stroke", v);
        node.assign("fill", text_of("rgb(255,255,255)"));
        assert(attrs_of(node) =~= seq![
            ("x"@, int_text(self.bounds.top_left.x as int)),
            ("y"@, int_text(self.bounds.top_left.y as int)),
            ("width"@, int_text(self.bounds.spec_width())),
            ("height"@, int_text(self.bounds.spec_height())),
            ("stroke-width"@, length_text(self.width, None)),
            ("stroke"@, rgb_text(self.color)),
            ("fill"@, "rgb(255,255,255)"@),
        ]);
        let ghost before = parent.nodes();
        let ghost m = node;
        let r = parent.append(node);
        assert(parent.nodes().take(before.len() as int) =~= before);
        proof {
            if r is Ok {
                assert(parent.nodes().skip(before.len() as int) =~= seq![m]);
            } else {
                assert(parent.nodes().skip(before.len() as int) =~= Seq::<XmlElement>::empty());
            }
        }
        r
    }
}

fn url_of(id: &String) -> (r: String)
    ensures
        r@ == url_text(id@),
{
    let mut v = text_of("url(#");
    v.append(id.as_str());
    v.append(")");
    v
}

impl Renderable for Line {
    type Ref = ();

    open spec fn render_ready(&self, counter: nat) -> bool {
        counter + arrow_count(*self) <= u64::MAX
    }

    /// Every appended element is the one due at its place: the markers,
    /// then the path. On success all of them were appended and one id used
    /// per arrowhead; on failure the path never was, and the refused marker
    /// used an id too.
    open spec fn rendered(&self, c0: nat, added: Seq<XmlElement>, c1: nat, r: Result<()>) -> bool {
        &&& forall|i: int| 0 <= i < added.len() ==> line_node(*self, c0, i, #[trigger] added[i])
        &&& match r {
            Ok(()) => added.len() == arrow_count(*self) + 1 && c1 == c0 + arrow_count(*self),
            Err(e) => {
                &&& e is Render
                &&& added.len() <= arrow_count(*self)
                &&& added.len() < arrow_count(*self) ==> c1 == c0 + added.len() + 1
                &&& added.len() == arrow_count(*self) ==> c1 == c0 + arrow_count(*self)
            },
        }
    }

    fn render_to<N: Node>(&self, parent: &mut N, state: &mut RenderState) -> (r: Result<()>) {
        let ghost base = parent.nodes();
        let ghost c0 = state.counter();
        let mut node = XmlElement::new("path");
        let ghost s: nat = if self.start_arrow is Some { 1nat } else { 0nat };
        assert(attrs_of(node) =~= Seq::empty());
        match self.start_arrow {
            Some(arrow) => {
                let ghost pre = parent.nodes();
                match arrow.render_to(parent, state) {
                    Ok(id) => {
                        node.assign("marker-start", url_of(&id));
                        assert(parent.nodes() =~= base + parent.nodes().skip(base.len() as int));
                    },
                    Err(e) => {
                        assert(parent.nodes() =~= base);
                        assert(parent.nodes().skip(base.len() as int) =~= Seq::<XmlElement>::empty());
                        return Err(e);
                    },
                }
            },
            None => {},
        }
        let ghost mid = parent.nodes();
        assert(mid.len() == base.len() + s);
        assert(mid.take(base.len() as int) =~= base);
        assert(forall|i: int|
            0 <= i < s ==> line_node(*self, c0, i, #[trigger] mid.skip(base.len() as int)[i]));
        assert(state.counter() == c0 + s);
        assert(attrs_of(node) =~= if self.start_arrow is Some {
            seq![("marker-start"@, url_text(arrow_id(c0)))]
        } else {
            Seq::empty()
        });
        match self.end_arrow {
            Some(arrow) => {
                match arrow.render_to(parent, state) {
                    Ok(id) => {
                        node.assign("marker-end", url_of(&id));
                        assert(parent.nodes().take(base.len() as int) =~= base);
                    },
                    Err(e) => {
                        assert(parent.nodes() =~= mid);
                        assert(parent.nodes().take(base.len() as int) =~= base);
                        assert(parent.nodes().skip(base.len() as int) =~= mid.skip(
                            base.len() as int,
                        ));
                        return Err(e);
                    },
                }
            },
            None => {},
        }
        let ghost markers = parent.nodes();
        assert(markers.len() == base.len() + arrow_count(*self));
        assert(markers.take(base.len() as int) =~= base);
        assert(forall|i: int|
            0 <= i < arrow_count(*self) ==> line_node(
                *self,
                c0,
                i,
                #[trigger] markers.skip(base.len() as int)[i],
            ));
        node.assign("fill", text_of("transparent"));
        node.assign("stroke", text_of("black"));
        node.assign("stroke-width", self.width.to_string());
        node.assign("d", build_path(&self.points));
        assert(attrs_of(node) =~= line_attrs(*self, c0));
        let ghost m = node;
        let r = parent.append(node);
        proof {
            assert(parent.nodes().take(base.len() as int) =~= base);
            if r is Ok {
                assert(parent.nodes().skip(base.len() as int) =~= markers.skip(base.len() as int).push(m));
            } else {
                assert(parent.nodes().skip(base.len() as int) =~= markers.skip(base.len() as int));
            }
        }
        r
    }
}

/// A line with no points is drawn with empty path data.
pub proof fn lemma_empty_line_path(l: Line, c: nat)
    requires
        l.points@.len() == 0,
    ensures
        line_attrs(l, c).last() == ("d"@, Seq::<char>::empty()),
{
    lemma_empty_path_data(l.points@);
}

/// A line with one point is drawn with a single move-to and no line-to.
pub proof fn lemma_single_point_line_path(l: Line, c: nat)
    requires
        l.points@.len() == 1,
    ensures
        line_attrs(l, c).last() == ("d"@, "M "@ + int_text(l.points@[0].x as int) + " "@ + int_text(
            l.points@[0].y as int,
        ) + " "@),
{
    lemma_single_point_path_data(l.points@);
}

/// A line with arrowheads at both ends draws two markers with different
/// ids, the first and second the counter gives, and its path refers to
/// exactly those ids, the first at its start and the second at its end.
pub proof fn lemma_line_arrow_ids(l: Line, c: nat)
    requires
        l.start_arrow is Some,
        l.end_arrow is Some,
    ensures
        arrow_id(c) != arrow_id(c + 1),
        arrow_count(l) == 2,
        forall|e: XmlElement| #[trigger]
            line_node(l, c, 0, e) <==> marker_node(l.start_arrow->0, e, arrow_id(c)),
        forall|e: XmlElement| #[trigger]
            line_node(l, c, 1, e) <==> marker_node(l.end_arrow->0, e, arrow_id(c + 1)),
        line_attrs(l, c)[0] == ("marker-start"@, url_text(arrow_id(c))),
        line_attrs(l, c)[1] == ("marker-end"@, url_text(arrow_id(c + 1))),
{
    lemma_ids_unique("arrow"@, c, c + 1);
}

} // verus!
