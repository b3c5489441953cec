//! Closed outlines made of horizontal and vertical edges, and the sheet that
//! collects them.

use vstd::prelude::*;

verus! {

/// A position on the cutting sheet.
#[derive(Clone, Copy, Debug, PartialEq, Eq, Structural)]
pub struct Point {
    pub x: usize,
    pub y: usize,
}

impl View for Point {
    type V = (int, int);

    open spec fn view(&self) -> (int, int) {
        (self.x as int, self.y as int)
    }
}

/// The positions of a run of points.
pub open spec fn positions(points: Seq<Point>) -> Seq<(int, int)> {
    points.map_values(|p: Point| p@)
}

/// Two positions lie on one horizontal or one vertical line.
pub open spec fn axis_parallel(a: (int, int), b: (int, int)) -> bool {
    a.0 == b.0 || a.1 == b.1
}

/// Every edge between consecutive vertices is horizontal or vertical.
pub open spec fn rectilinear(vertices: Seq<(int, int)>) -> bool {
    forall|i: int| 0 <= i < vertices.len() - 1 ==> axis_parallel(#[trigger] vertices[i], vertices[i + 1])
}

/// The outline of a slot with its near corner at `(x, y)`: a rectangle
/// `width` across and `length` along the depth.
pub open spec fn slot_outline(x: int, y: int, width: int, length: int) -> Seq<(int, int)> {
    seq![(x, y), (x, y + length), (x + width, y + length), (x + width, y)]
}

/// A slot stroked in `color`.
pub open spec fn slot(x: int, y: int, width: int, length: int, color: Seq<char>) -> PathView {
    PathView { vertices: slot_outline(x, y, width, length), stroke: color }
}

/// An outline under construction: the vertices walked so far.
pub struct OutlineBuilder {
    vertices: Vec<Point>,
}

impl View for OutlineBuilder {
    type V = Seq<(int, int)>;

    closed spec fn view(&self) -> Seq<(int, int)> {
        positions(self.vertices@)
    }
}

impl OutlineBuilder {
    #[verifier::type_invariant]
    spec fn well_formed(self) -> bool {
        self.vertices@.len() >= 1 && rectilinear(positions(self.vertices@))
    }

    /// Starts an outline at `start`.
    pub fn move_to(start: Point) -> (builder: Self)
        ensures
            builder@ == seq![start@],
    {
        let mut vertices: Vec<Point> = Vec::new();
        vertices.push(start);
        assert(positions(vertices@) =~= seq![start@]);
        OutlineBuilder { vertices }
    }

    /// Walks vertically to the absolute height `y`.
    pub fn vertical_line_to(self, y: usize) -> (builder: Self)
        ensures
            self@.len() >= 1,
            builder@ == self@.push((self@.last().0, y as int)),
    {
        proof {
            use_type_invariant(&self);
        }
        let mut vertices = self.vertices;
        let ghost before = vertices@;
        let last = vertices[vertices.len() - 1];
        vertices.push(Point { x: last.x, y });
        assert(positions(vertices@) =~= positions(before).push((last.x as int, y as int)));
        OutlineBuilder { vertices }
    }

    /// Walks horizontally to the absolute abscissa `x`.
    pub fn horizontal_line_to(self, x: usize) -> (builder: Self)
        ensures
            self@.len() >= 1,
            builder@ == self@.push((x as int, self@.last().1)),
    {
        proof {
            use_type_invariant(&self);
        }
        let mut vertices = self.vertices;
        let ghost before = vertices@;
        let last = vertices[vertices.len() - 1];
        vertices.push(Point { x, y: last.y });
        assert(positions(vertices@) =~= positions(before).push((x as int, last.y as int)));
        OutlineBuilder { vertices }
    }

    /// Seals the walk: the last vertex is joined back to the first.
    pub fn close(self) -> (outline: Outline)
        ensures
            outline@ == self@,
            outline@.len() >= 1,
            rectilinear(outline@),
    {
        proof {
            use_type_invariant(&self);
        }
        Outline { vertices: self.vertices }
    }
}

/// One step of a walk along an outline.
#[derive(Clone, Copy, Debug, PartialEq, Eq, Structural)]
pub enum Move {
    /// Straight up or down to the absolute height given.
    Vertical(usize),
    /// Straight left or right to the absolute abscissa given.
    Horizontal(usize),
}

/// Where a step leads from `from`.
pub open spec fn step_from(from: (int, int), step: Move) -> (int, int) {
    match step {
        Move::Vertical(y) => (from.0, y as int),
        Move::Horizontal(x) => (x as int, from.1),
    }
}

/// The positions visited by walking `steps` from `start`, `start` included.
pub open spec fn walk(start: (int, int), steps: Seq<Move>) -> Seq<(int, int)>
    decreases steps.len(),
{
    if steps.len() == 0 {
        seq![start]
    } else {
        let before = walk(start, steps.drop_last());
        before.push(step_from(before.last(), steps.last()))
    }
}

/// A closed outline: its vertices in walking order, the last joined back to
/// the first. There is at least one vertex, and every edge between
/// neighbours is horizontal or vertical.
#[derive(Debug, PartialEq, Eq)]
pub struct Outline {
    vertices: Vec<Point>,
}

impl View for Outline {
    type V = Seq<(int, int)>;

    closed spec fn view(&self) -> Seq<(int, int)> {
        positions(self.vertices@)
    }
}

impl Clone for Outline {
    fn clone(&self) -> (copy: Self)
        ensures
            copy@ == self@,
    {
        proof {
            use_type_invariant(self);
        }
        let vertices = self.vertices.clone();
        assert(vertices@ =~= self.vertices@);
        Outline { vertices }
    }
}

impl Outline {
    #[verifier::type_invariant]
    spec fn well_formed(self) -> bool {
        self.vertices@.len() >= 1 && rectilinear(positions(self.vertices@))
    }

    /// The vertices in walking order.
    pub fn vertices(&self) -> (vertices: &Vec<Point>)
        ensures
            positions(vertices@) == self@,
            self@.len() >= 1,
            rectilinear(self@),
    {
        proof {
            use_type_invariant(self);
        }
        &self.vertices
    }

    /// The steps that lead from the first vertex through all the others: a
    /// vertical one where the abscissa stays, a horizontal one otherwise.
    /// Walking them from the first vertex retraces the outline.
    pub fn moves(&self) -> (steps: Vec<Move>)
        ensures
            self@.len() >= 1,
            steps@.len() == self@.len() - 1,
            walk(self@[0], steps@) == self@,
            forall|i: int|
                0 <= i < steps@.len() ==> (#[trigger] steps@[i] is Vertical <==> self@[i].0
                    == self@[i + 1].0),
    {
        proof {
            use_type_invariant(self);
        }
        let mut steps: Vec<Move> = Vec::new();
        assert(walk(self@[0], steps@) =~= self@.take(1));
        for i in 1..self.vertices.len()
            invariant
                self.vertices@.len() >= 1,
                rectilinear(positions(self.vertices@)),
                self@ == positions(self.vertices@),
                steps@.len() == i - 1,
                walk(self@[0], steps@) == self@.take(i as int),
                forall|k: int|
                    0 <= k < steps@.len() ==> (#[trigger] steps@[k] is Vertical <==> self@[k].0
                        == self@[k + 1].0),
        {
            let from = self.vertices[i - 1];
            let to = self.vertices[i];
            let step = if from.x == to.x {
                Move::Vertical(to.y)
            } else {
                Move::Horizontal(to.x)
            };
            proof {
                assert(axis_parallel(self@[i - 1], self@[i - 1 + 1]));
                assert(steps@.push(step).drop_last() =~= steps@);
                assert(self@.take(i as int).last() == self@[i - 1]);
                assert(self@.take(i as int).push(self@[i as int]) =~= self@.take(i + 1));
            }
            steps.push(step);
        }
        assert(self@.take(self@.len() as int) =~= self@);
        steps
    }
}

/// A closed outline together with the colour it is stroked in. Paths are
/// never filled; the colour carries no geometric meaning.
#[derive(Clone, Debug, PartialEq, Eq)]
pub struct Path {
    pub outline: Outline,
    pub stroke: String,
}

/// What a path stands for: its vertices and its stroke colour.
pub struct PathView {
    pub vertices: Seq<(int, int)>,
    pub stroke: Seq<char>,
}

impl View for Path {
    type V = PathView;

    open spec fn view(&self) -> PathView {
        PathView { vertices: self.outline@, stroke: self.stroke@ }
    }
}

impl Path {
    /// Strokes `outline` in `color`.
    pub fn new(outline: Outline, color: &str) -> (path: Path)
        ensures
            path@ == (PathView { vertices: outline@, stroke: color@ }),
    {
        Path { outline, stroke: color.to_owned() }
    }
}

/// The views of a run of paths.
pub open spec fn path_views(paths: Seq<Path>) -> Seq<PathView> {
    paths.map_values(|p: Path| p@)
}

/// A cutting sheet: the canvas size and the paths drawn on it, in drawing
/// order.
#[derive(Clone, Debug, PartialEq, Eq)]
pub struct Document {
    pub width: usize,
    pub height: usize,
    pub paths: Vec<Path>,
}

/// What a document stands for.
pub struct DocumentView {
    pub width: int,
    pub height: int,
    pub paths: Seq<PathView>,
}

impl View for Document {
    type V = DocumentView;

    open spec fn view(&self) -> DocumentView {
        DocumentView {
            width: self.width as int,
            height: self.height as int,
            paths: path_views(self.paths@),
        }
    }
}

impl DocumentView {
    /// The same canvas with `more` drawn after the paths already there.
    pub open spec fn with(self, more: Seq<PathView>) -> DocumentView {
        DocumentView { paths: self.paths + more, ..self }
    }
}

impl Document {
    /// An empty sheet of the given size.
    pub fn new(width: usize, height: usize) -> (document: Document)
        ensures
            document@ == (DocumentView {
                width: width as int,
                height: height as int,
                paths: Seq::empty(),
            }),
    {
        let document = Document { width, height, paths: Vec::new() };
        assert(path_views(document.paths@) =~= Seq::empty());
        document
    }

    /// Draws `path` after the paths already on the sheet.
    pub fn append(&mut self, path: Path)
        ensures
            final(self)@ == old(self)@.with(seq![path@]),
    {
        self.paths.push(path);
        assert(path_views(self.paths@) =~= path_views(old(self).paths@) + seq![path@]);
    }
}

/// A closed polygon of horizontal and vertical edges only: at least four
/// vertices, every edge between neighbours axis-parallel, and the closing
/// edge from the last vertex back to the first as well.
pub open spec fn closed_rectilinear(vertices: Seq<(int, int)>) -> bool {
    &&& vertices.len() >= 4
    &&& rectilinear(vertices)
    &&& axis_parallel(vertices.last(), vertices[0])
}

/// Every path of the run is a closed polygon of horizontal and vertical
/// edges.
pub open spec fn all_closed_rectilinear(paths: Seq<PathView>) -> bool {
    forall|i: int| 0 <= i < paths.len() ==> closed_rectilinear(#[trigger] paths[i].vertices)
}

/// Drawing one run of such polygons after another gives a run of such
/// polygons.
pub proof fn lemma_all_closed_rectilinear_concat(first: Seq<PathView>, second: Seq<PathView>)
    requires
        all_closed_rectilinear(first),
        all_closed_rectilinear(second),
    ensures
        all_closed_rectilinear(first + second),
{
    assert forall|i: int| 0 <= i < (first + second).len() implies closed_rectilinear(
        #[trigger] (first + second)[i].vertices,
    ) by {
        if i < first.len() {
            assert((first + second)[i] == first[i]);
        } else {
            assert((first + second)[i] == second[i - first.len()]);
        }
    }
}

/// A slot is a closed polygon of horizontal and vertical edges.
pub proof fn lemma_slot_closed_rectilinear(x: int, y: int, width: int, length: int)
    ensures
        closed_rectilinear(slot_outline(x, y, width, length)),
{
}

/// An upright rectangle on the sheet, its edges included.
pub struct Frame {
    pub left: int,
    pub top: int,
    pub right: int,
    pub bottom: int,
}

impl Frame {
    /// The position lies in the rectangle.
    pub open spec fn holds(self, position: (int, int)) -> bool {
        self.left <= position.0 <= self.right && self.top <= position.1 <= self.bottom
    }

    /// Every vertex lies in the rectangle.
    pub open spec fn holds_outline(self, vertices: Seq<(int, int)>) -> bool {
        forall|i: int| 0 <= i < vertices.len() ==> self.holds(#[trigger] vertices[i])
    }

    /// Every vertex of every path lies in the rectangle.
    pub open spec fn holds_all(self, paths: Seq<PathView>) -> bool {
        forall|i: int| 0 <= i < paths.len() ==> self.holds_outline(#[trigger] paths[i].vertices)
    }

    /// The rectangle lies in `outer`.
    pub open spec fn inside(self, outer: Frame) -> bool {
        &&& outer.left <= self.left
        &&& outer.top <= self.top
        &&& self.right <= outer.right
        &&& self.bottom <= outer.bottom
    }
}

/// Paths that lie in two rectangles, drawn one run after the other, lie in
/// any rectangle that contains both.
pub proof fn lemma_frames_join(
    first: Seq<PathView>,
    first_frame: Frame,
    second: Seq<PathView>,
    second_frame: Frame,
    outer: Frame,
)
    requires
        first_frame.holds_all(first),
        second_frame.holds_all(second),
        first_frame.inside(outer),
        second_frame.inside(outer),
    ensures
        outer.holds_all(first + second),
{
    assert forall|i: int| 0 <= i < (first + second).len() implies outer.holds_outline(
        #[trigger] (first + second)[i].vertices,
    ) by {
        let vertices = (first + second)[i].vertices;
        if i < first.len() {
            assert((first + second)[i] == first[i]);
            assert(first_frame.holds_outline(first[i].vertices));
            assert forall|k: int| 0 <= k < vertices.len() implies outer.holds(
                #[trigger] vertices[k],
            ) by {
                assert(first_frame.holds(first[i].vertices[k]));
            }
        } else {
            let j = i - first.len();
            assert((first + second)[i] == second[j]);
            assert(second_frame.holds_outline(second[j].vertices));
            assert forall|k: int| 0 <= k < vertices.len() implies outer.holds(
                #[trigger] vertices[k],
            ) by {
                assert(second_frame.holds(second[j].vertices[k]));
            }
        }
    }
}

/// A slot lies in the rectangle it is named by.
pub proof fn lemma_slot_frame(x: int, y: int, width: int, length: int)
    requires
        0 <= width,
        0 <= length,
    ensures
        (Frame { left: x, top: y, right: x + width, bottom: y + length }).holds_outline(
            slot_outline(x, y, width, length),
        ),
{
}

/// The edge that starts at vertex `index` ends at the next vertex, the last
/// edge at the first vertex.
pub open spec fn edge_end(vertices: Seq<(int, int)>, index: int) -> (int, int) {
    if index + 1 < vertices.len() {
        vertices[index + 1]
    } else {
        vertices[0]
    }
}

/// Two horizontal or vertical edges, `a` to `b` and `c` to `d`, have a point
/// in common: their extents overlap along both axes.
pub open spec fn edges_meet(a: (int, int), b: (int, int), c: (int, int), d: (int, int)) -> bool {
    &&& vstd::math::min(a.0, b.0) <= vstd::math::max(c.0, d.0)
    &&& vstd::math::min(c.0, d.0) <= vstd::math::max(a.0, b.0)
    &&& vstd::math::min(a.1, b.1) <= vstd::math::max(c.1, d.1)
    &&& vstd::math::min(c.1, d.1) <= vstd::math::max(a.1, b.1)
}

/// The edges that start at vertices `i` and `j` of a closed outline have no
/// point in common.
pub open spec fn edges_apart(vertices: Seq<(int, int)>, i: int, j: int) -> bool {
    !edges_meet(vertices[i], edge_end(vertices, i), vertices[j], edge_end(vertices, j))
}

/// The closed outline does not cross or touch itself: no two of its edges
/// have a point in common, except neighbours, which share a vertex.
pub open spec fn simple(vertices: Seq<(int, int)>) -> bool {
    forall|i: int, j: int|
        0 <= i && i + 1 < j < vertices.len() && !(i == 0 && j == vertices.len() - 1)
            ==> #[trigger] edges_apart(vertices, i, j)
}

/// A slot that is wider and longer than nothing does not cross itself.
pub proof fn lemma_slot_simple(x: int, y: int, width: int, length: int)
    requires
        0 < width,
        0 < length,
    ensures
        simple(slot_outline(x, y, width, length)),
{
}

/// No path of the run crosses or touches itself.
pub open spec fn all_simple(paths: Seq<PathView>) -> bool {
    forall|i: int| 0 <= i < paths.len() ==> simple(#[trigger] paths[i].vertices)
}

/// Drawing one run of such paths after another gives a run of such paths.
pub proof fn lemma_all_simple_concat(first: Seq<PathView>, second: Seq<PathView>)
    requires
        all_simple(first),
        all_simple(second),
    ensures
        all_simple(first + second),
{
    assert forall|i: int| 0 <= i < (first + second).len() implies simple(
        #[trigger] (first + second)[i].vertices,
    ) by {
        if i < first.len() {
            assert((first + second)[i] == first[i]);
        } else {
            assert((first + second)[i] == second[i - first.len()]);
        }
    }
}

} // verus!
