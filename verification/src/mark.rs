//! Drawable primitives: what guides are arranged into.
//!
//! A guide produces a list of marks. Each mark carries a stable id and a
//! paint-order integer and is a straight line segment, a filled rectangle or
//! a positioned run of text. Geometry is in the same coordinates as the data
//! rectangle. Marks with a lower paint order paint first; [`paint_order`]
//! breaks ties by identity and then by position in the list.

use vstd::prelude::*;
use crate::fixed::Fixed;

verus! {

/// Horizontal reference point of a text mark relative to its position.
#[derive(Clone, Copy, Debug, PartialEq, Eq, Structural, Hash)]
pub enum TextAnchor {
    /// The text starts at the position.
    Start,
    /// The text is centered on the position.
    Middle,
    /// The text ends at the position.
    End,
}

/// Vertical reference point of a text mark relative to its position.
#[derive(Clone, Copy, Debug, PartialEq, Eq, Structural, Hash)]
pub enum TextBaseline {
    /// The middle of the line sits on the position.
    Middle,
    /// The alphabetic baseline sits on the position.
    Alphabetic,
    /// The text hangs below the position.
    Hanging,
    /// The text sits above the position.
    Ideographic,
}

/// A solid paint: red, green, blue and alpha, eight bits each.
#[derive(Clone, Copy, Debug, PartialEq, Eq, Structural, Hash)]
pub struct Color {
    /// Red.
    pub r: u8,
    /// Green.
    pub g: u8,
    /// Blue.
    pub b: u8,
    /// Alpha; `255` is opaque.
    pub a: u8,
}

impl Color {
    /// Opaque black.
    pub open spec fn black() -> Color {
        Color { r: 0, g: 0, b: 0, a: 255 }
    }

    /// Creates a color from its four channels.
    pub fn rgba(r: u8, g: u8, b: u8, a: u8) -> (c: Color)
        ensures
            c == (Color { r, g, b, a }),
    {
        Color { r, g, b, a }
    }
}

/// A straight line segment with a stroke.
#[derive(Clone, Copy, Debug, PartialEq, Eq, Structural)]
pub struct RuleMark {
    /// Stable identity of the mark.
    pub id: u64,
    /// Paint order; lower paints first.
    pub z_index: i32,
    /// Start point, x.
    pub x0: Fixed,
    /// Start point, y.
    pub y0: Fixed,
    /// End point, x.
    pub x1: Fixed,
    /// End point, y.
    pub y1: Fixed,
    /// Stroke paint.
    pub stroke: Color,
    /// Stroke width.
    pub stroke_width: Fixed,
}

/// A filled axis-aligned rectangle.
#[derive(Clone, Copy, Debug, PartialEq, Eq, Structural)]
pub struct RectMark {
    /// Stable identity of the mark.
    pub id: u64,
    /// Paint order; lower paints first.
    pub z_index: i32,
    /// Left edge.
    pub x: Fixed,
    /// Top edge.
    pub y: Fixed,
    /// Width.
    pub w: Fixed,
    /// Height.
    pub h: Fixed,
    /// Fill paint.
    pub fill: Color,
}

/// A positioned run of unshaped text.
#[derive(Clone, Debug, PartialEq, Eq)]
pub struct TextMark {
    /// Stable identity of the mark.
    pub id: u64,
    /// Paint order; lower paints first.
    pub z_index: i32,
    /// Anchor point, x.
    pub x: Fixed,
    /// Anchor point, y.
    pub y: Fixed,
    /// The text.
    pub text: String,
    /// Horizontal anchor.
    pub anchor: TextAnchor,
    /// Vertical baseline.
    pub baseline: TextBaseline,
    /// Rotation about the anchor point, in degrees.
    pub angle: Fixed,
    /// Font size.
    pub font_size: Fixed,
    /// Fill paint.
    pub fill: Color,
}

/// What a [`TextMark`] holds, with its text as a sequence of characters.
pub struct TextModel {
    /// Stable identity of the mark.
    pub id: u64,
    /// Paint order.
    pub z_index: i32,
    /// Anchor point, x.
    pub x: int,
    /// Anchor point, y.
    pub y: int,
    /// The text.
    pub text: Seq<char>,
    /// Horizontal anchor.
    pub anchor: TextAnchor,
    /// Vertical baseline.
    pub baseline: TextBaseline,
    /// Rotation in degrees.
    pub angle: int,
    /// Font size.
    pub font_size: int,
    /// Fill paint.
    pub fill: Color,
}

/// What a [`RuleMark`] holds, with its coordinates as integers.
pub struct RuleModel {
    /// Stable identity of the mark.
    pub id: u64,
    /// Paint order.
    pub z_index: i32,
    /// Start point, x.
    pub x0: int,
    /// Start point, y.
    pub y0: int,
    /// End point, x.
    pub x1: int,
    /// End point, y.
    pub y1: int,
    /// Stroke paint.
    pub stroke: Color,
    /// Stroke width.
    pub stroke_width: int,
}

/// What a [`RectMark`] holds, with its coordinates as integers.
pub struct RectModel {
    /// Stable identity of the mark.
    pub id: u64,
    /// Paint order.
    pub z_index: i32,
    /// Left edge.
    pub x: int,
    /// Top edge.
    pub y: int,
    /// Width.
    pub w: int,
    /// Height.
    pub h: int,
    /// Fill paint.
    pub fill: Color,
}

/// The mathematical model of a [`Mark`].
pub enum MarkModel {
    /// A line segment.
    Rule(RuleModel),
    /// A rectangle.
    Rect(RectModel),
    /// A run of text.
    Text(TextModel),
}

/// A drawable primitive.
#[derive(Clone, Debug, PartialEq, Eq)]
pub enum Mark {
    /// A straight line segment.
    Rule(RuleMark),
    /// A filled rectangle.
    Rect(RectMark),
    /// A positioned run of text.
    Text(TextMark),
}

impl View for RuleMark {
    type V = RuleModel;

    open spec fn view(&self) -> RuleModel {
        RuleModel {
            id: self.id,
            z_index: self.z_index,
            x0: self.x0 as int,
            y0: self.y0 as int,
            x1: self.x1 as int,
            y1: self.y1 as int,
            stroke: self.stroke,
            stroke_width: self.stroke_width as int,
        }
    }
}

impl View for RectMark {
    type V = RectModel;

    open spec fn view(&self) -> RectModel {
        RectModel {
            id: self.id,
            z_index: self.z_index,
            x: self.x as int,
            y: self.y as int,
            w: self.w as int,
            h: self.h as int,
            fill: self.fill,
        }
    }
}

impl View for TextMark {
    type V = TextModel;

    open spec fn view(&self) -> TextModel {
        TextModel {
            id: self.id,
            z_index: self.z_index,
            x: self.x as int,
            y: self.y as int,
            text: self.text@,
            anchor: self.anchor,
            baseline: self.baseline,
            angle: self.angle as int,
            font_size: self.font_size as int,
            fill: self.fill,
        }
    }
}

impl View for Mark {
    type V = MarkModel;

    open spec fn view(&self) -> MarkModel {
        match self {
            Mark::Rule(m) => MarkModel::Rule(m@),
            Mark::Rect(m) => MarkModel::Rect(m@),
            Mark::Text(m) => MarkModel::Text(m@),
        }
    }
}

/// The models of a list of marks, in order.
pub open spec fn models(marks: Seq<Mark>) -> Seq<MarkModel> {
    Seq::new(marks.len(), |i: int| marks[i]@)
}

impl Mark {
    /// Returns the stable identity of the mark.
    pub fn id(&self) -> (id: u64)
        ensures
            id == match self@ {
                MarkModel::Rule(m) => m.id,
                MarkModel::Rect(m) => m.id,
                MarkModel::Text(m) => m.id,
            },
    {
        match self {
            Mark::Rule(m) => m.id,
            Mark::Rect(m) => m.id,
            Mark::Text(m) => m.id,
        }
    }

    /// Returns the paint order of the mark.
    pub fn z_index(&self) -> (z: i32)
        ensures
            z == match self@ {
                MarkModel::Rule(m) => m.z_index,
                MarkModel::Rect(m) => m.z_index,
                MarkModel::Text(m) => m.z_index,
            },
    {
        match self {
            Mark::Rule(m) => m.z_index,
            Mark::Rect(m) => m.z_index,
            Mark::Text(m) => m.z_index,
        }
    }
}

impl MarkModel {
    /// The stable identity of the mark.
    pub open spec fn id(&self) -> u64 {
        match self {
            MarkModel::Rule(m) => m.id,
            MarkModel::Rect(m) => m.id,
            MarkModel::Text(m) => m.id,
        }
    }

    /// The paint order of the mark.
    pub open spec fn z_index(&self) -> i32 {
        match self {
            MarkModel::Rule(m) => m.z_index,
            MarkModel::Rect(m) => m.z_index,
            MarkModel::Text(m) => m.z_index,
        }
    }
}

/// Whether the mark at index `a` paints before the mark at index `b`: it
/// has the lower paint order or, with the same paint order, the lower
/// identity or, with the same identity too, comes first in the list.
pub open spec fn paints_before(marks: Seq<Mark>, a: int, b: int) -> bool {
    let x = marks[a]@;
    let y = marks[b]@;
    x.z_index() < y.z_index() || (x.z_index() == y.z_index() && (x.id() < y.id() || (x.id()
        == y.id() && a < b)))
}

/// Whether `order` lists every index of a list of `n` marks exactly once.
pub open spec fn lists_each_once(order: Seq<usize>, n: int) -> bool {
    &&& order.len() == n
    &&& forall|i: int| 0 <= i < order.len() ==> #[trigger] order[i] < n
    &&& forall|i: int, j: int| 0 <= i < j < order.len() ==> order[i] != order[j]
}

/// Whether `order` is the order in which `marks` paint: it lists every
/// index exactly once, each painting before the next.
pub open spec fn is_paint_order(marks: Seq<Mark>, order: Seq<usize>) -> bool {
    &&& lists_each_once(order, marks.len() as int)
    &&& forall|i: int, j: int|
        0 <= i < j < order.len() ==> paints_before(marks, order[i] as int, order[j] as int)
}

/// Returns whether the mark at index `a` paints before the mark at index
/// `b`.
fn goes_before(marks: &Vec<Mark>, a: usize, b: usize) -> (r: bool)
    requires
        a < marks@.len(),
        b < marks@.len(),
    ensures
        r == paints_before(marks@, a as int, b as int),
{
    let za: i32 = marks[a].z_index();
    let zb: i32 = marks[b].z_index();
    let ia: u64 = marks[a].id();
    let ib: u64 = marks[b].id();
    za < zb || (za == zb && (ia < ib || (ia == ib && a < b)))
}

/// Returns the order in which marks paint, as indices into the list: lower
/// paint order first, ties broken by identity and then by position.
pub fn paint_order(marks: &Vec<Mark>) -> (order: Vec<usize>)
    ensures
        is_paint_order(marks@, order@),
{
    let mut order: Vec<usize> = Vec::new();
    let mut next: usize = 0;
    while next < marks.len()
        invariant
            0 <= next <= marks@.len(),
            lists_each_once(order@, next as int),
            forall|i: int, j: int|
                0 <= i < j < order@.len() ==> paints_before(
                    marks@,
                    order@[i] as int,
                    order@[j] as int,
                ),
        decreases marks@.len() - next,
    {
        // Find where the next mark goes: before the first that it paints before.
        let mut at: usize = 0;
        while at < order.len() && !goes_before(marks, next, order[at])
            invariant
                0 <= at <= order@.len(),
                next < marks@.len(),
                lists_each_once(order@, next as int),
                forall|i: int|
                    0 <= i < at ==> !paints_before(marks@, next as int, #[trigger] order@[i] as int),
            decreases order@.len() - at,
        {
            at = at + 1;
        }
        let ghost before = order@;
        order.insert(at, next);
        proof {
            assert forall|i: int, j: int| 0 <= i < j < order@.len() implies paints_before(
                marks@,
                order@[i] as int,
                order@[j] as int,
            ) by {
                if j < at {
                    assert(order@[i] == before[i] && order@[j] == before[j]);
                } else if j == at {
                    assert(order@[i] == before[i]);
                    assert(!paints_before(marks@, next as int, before[i] as int));
                    assert(before[i] < next);
                } else if i < at {
                    assert(order@[i] == before[i] && order@[j] == before[j - 1]);
                } else if i == at {
                    assert(order@[j] == before[j - 1]);
                    assert(paints_before(marks@, next as int, before[at as int] as int));
                    if j - 1 > at {
                        assert(paints_before(
                            marks@,
                            before[at as int] as int,
                            before[j - 1] as int,
                        ));
                    }
                } else {
                    assert(order@[i] == before[i - 1] && order@[j] == before[j - 1]);
                }
            }
            assert forall|i: int, j: int| 0 <= i < j < order@.len() implies order@[i]
                != order@[j] by {
                if i != at && j != at {
                    let a = if i < at {
                        i
                    } else {
                        i - 1
                    };
                    let b = if j < at {
                        j
                    } else {
                        j - 1
                    };
                    assert(order@[i] == before[a] && order@[j] == before[b]);
                } else if i == at {
                    assert(order@[j] == before[j - 1]);
                    assert(before[j - 1] < next);
                } else {
                    assert(order@[i] == before[i]);
                    assert(before[i] < next);
                }
            }
            assert forall|i: int| 0 <= i < order@.len() implies #[trigger] order@[i] < next
                + 1 by {
                if i < at {
                    assert(order@[i] == before[i]);
                } else if i > at {
                    assert(order@[i] == before[i - 1]);
                }
            }
        }
        next = next + 1;
    }
    order
}

/// A list that holds every index below `n` exactly once holds any given one
/// of them somewhere.
pub proof fn lemma_index_is_listed(order: Seq<usize>, n: int, x: int)
    requires
        lists_each_once(order, n),
        0 <= x < n,
    ensures
        exists|i: int| 0 <= i < order.len() && #[trigger] order[i] == x,
{
    let values = Seq::new(order.len(), |i: int| order[i] as int);
    assert(values.no_duplicates());
    values.unique_seq_to_set();
    let all = vstd::set_lib::set_int_range(0, n);
    vstd::set_lib::lemma_int_range(0, n);
    assert(values.to_set().subset_of(all)) by {
        assert forall|v: int| values.to_set().contains(v) implies all.contains(v) by {
            let i = choose|i: int| 0 <= i < values.len() && values[i] == v;
            assert(order[i] < n);
        }
    }
    vstd::set_lib::lemma_len_subset(values.to_set(), all);
    vstd::set_lib::lemma_subset_equality(values.to_set(), all);
    assert(all.contains(x));
    assert(values.to_set().contains(x));
    let i = choose|i: int| 0 <= i < values.len() && values[i] == x;
    assert(0 <= i < order.len() && order[i] == x);
}

/// Marks paint in one order only: two paint orders of the same marks are
/// the same.
pub proof fn lemma_paint_order_is_unique(marks: Seq<Mark>, a: Seq<usize>, b: Seq<usize>)
    requires
        is_paint_order(marks, a),
        is_paint_order(marks, b),
    ensures
        a == b,
{
    let n = marks.len() as int;
    assert forall|k: int| 0 <= k < n implies a[k] == b[k] by {
        lemma_same_up_to(marks, a, b, k + 1);
    }
    assert(a =~= b);
}

/// Two paint orders of the same marks agree on their first `k` entries.
proof fn lemma_same_up_to(marks: Seq<Mark>, a: Seq<usize>, b: Seq<usize>, k: int)
    requires
        is_paint_order(marks, a),
        is_paint_order(marks, b),
        0 <= k <= marks.len(),
    ensures
        forall|i: int| 0 <= i < k ==> a[i] == b[i],
    decreases k,
{
    if k > 0 {
        lemma_same_up_to(marks, a, b, k - 1);
        let n = marks.len() as int;
        let at = k - 1;
        let x = a[at] as int;
        let y = b[at] as int;
        if x != y {
            lemma_index_is_listed(b, n, x);
            lemma_index_is_listed(a, n, y);
            let m = choose|m: int| 0 <= m < b.len() && #[trigger] b[m] == x;
            let w = choose|w: int| 0 <= w < a.len() && #[trigger] a[w] == y;
            if m < at {
                assert(a[m] == b[m]);
                assert(a[m] != a[at]);
            }
            if w < at {
                assert(a[w] == b[w]);
                assert(b[w] != b[at]);
            }
            assert(paints_before(marks, a[at] as int, a[w] as int));
            assert(paints_before(marks, b[at] as int, b[m] as int));
        }
    }
}

} // verus!
