//! Text measurement for guide layout.
//!
//! Axes, legends and titles must know how large their text is before they can
//! be laid out. Shaping and glyph layout stay outside this crate: guides
//! depend on the small [`TextMeasurer`] capability, and
//! [`HeuristicTextMeasurer`] is a deterministic fallback that needs nothing
//! else.

use vstd::prelude::*;
use crate::fixed::{Fixed, LIMIT, clamp_int, floor_div, in_range};

verus! {

/// Font family selection for measurement.
#[derive(Clone, Debug, PartialEq, Eq, Hash)]
pub enum FontFamily {
    /// A generic serif family (CSS `serif`).
    Serif,
    /// A generic sans-serif family (CSS `sans-serif`).
    SansSerif,
    /// A generic monospace family (CSS `monospace`).
    Monospace,
    /// A named family (for example `"Inter"`).
    Named(String),
}

impl FontFamily {
    /// The family name as written in a CSS font declaration.
    pub open spec fn css_family(&self) -> Seq<char> {
        match self {
            FontFamily::Serif => "serif"@,
            FontFamily::SansSerif => "sans-serif"@,
            FontFamily::Monospace => "monospace"@,
            FontFamily::Named(name) => name@,
        }
    }

    /// Returns the font family string for CSS-style font declarations.
    #[must_use]
    pub fn as_css_family(&self) -> (family: &str)
        ensures
            family@ == self.css_family(),
    {
        match self {
            FontFamily::Serif => "serif",
            FontFamily::SansSerif => "sans-serif",
            FontFamily::Monospace => "monospace",
            FontFamily::Named(name) => name.as_str(),
        }
    }
}

/// CSS-style font weights.
#[derive(Clone, Copy, Debug, PartialEq, Eq, Structural, Hash, PartialOrd, Ord)]
pub struct FontWeight(pub u16);

impl FontWeight {
    /// Normal weight (`400`).
    pub fn normal() -> (w: FontWeight)
        ensures
            w == FontWeight(400),
    {
        FontWeight(400)
    }

    /// Bold weight (`700`).
    pub fn bold() -> (w: FontWeight)
        ensures
            w == FontWeight(700),
    {
        FontWeight(700)
    }
}

/// CSS-style font styles.
#[derive(Clone, Copy, Debug, PartialEq, Eq, Structural, Hash)]
pub enum FontStyle {
    /// Normal style.
    Normal,
    /// Italic style.
    Italic,
    /// Oblique style.
    Oblique,
}

/// Text styling inputs relevant to measurement.
#[derive(Clone, Debug, PartialEq, Eq)]
pub struct TextStyle {
    /// Font size in chart coordinates.
    pub font_size: Fixed,
    /// The preferred font family.
    pub font_family: FontFamily,
    /// Font weight.
    pub font_weight: FontWeight,
    /// Font style.
    pub font_style: FontStyle,
}

impl TextStyle {
    /// The default style at the given font size: sans-serif, normal weight,
    /// normal style.
    pub open spec fn with_size(font_size: Fixed) -> TextStyle {
        TextStyle {
            font_size,
            font_family: FontFamily::SansSerif,
            font_weight: FontWeight(400),
            font_style: FontStyle::Normal,
        }
    }

    /// Creates a default `TextStyle` with the given `font_size`.
    #[must_use]
    pub fn new(font_size: Fixed) -> (style: TextStyle)
        ensures
            style == TextStyle::with_size(font_size),
    {
        TextStyle {
            font_size,
            font_family: FontFamily::SansSerif,
            font_weight: FontWeight(400),
            font_style: FontStyle::Normal,
        }
    }
}

impl Default for TextStyle {
    fn default() -> (style: TextStyle)
        ensures
            style == TextStyle::with_size(12_000_000),
    {
        TextStyle::new(12_000_000)
    }
}

/// Measured metrics for a single line of text.
#[derive(Clone, Copy, Debug, PartialEq, Eq, Structural)]
pub struct TextMetrics {
    /// The advance width.
    pub advance_width: Fixed,
    /// Distance from the baseline to the top of typical glyphs.
    pub ascent: Fixed,
    /// Distance from the baseline to the bottom of typical glyphs.
    pub descent: Fixed,
    /// Additional line spacing beyond ascent and descent.
    pub leading: Fixed,
}

impl TextMetrics {
    /// Whether every metric lies within the accepted coordinate range.
    pub open spec fn in_range(&self) -> bool {
        &&& in_range(self.advance_width as int)
        &&& in_range(self.ascent as int)
        &&& in_range(self.descent as int)
        &&& in_range(self.leading as int)
    }

    /// `ascent + descent + leading`.
    pub open spec fn line_height_of(&self) -> int {
        self.ascent + self.descent + self.leading
    }

    /// Returns `ascent + descent + leading`.
    #[must_use]
    pub fn line_height(&self) -> (h: Fixed)
        requires
            self.in_range(),
        ensures
            h == self.line_height_of(),
    {
        self.ascent + self.descent + self.leading
    }
}

/// The capability guides use to measure a single line of text.
///
/// A measurer may be a heuristic, a shaping engine or a platform service. It
/// is expected to be a pure function of the text and its style, so that a
/// guide can be measured first and arranged later, but a guide takes whatever
/// metrics it is given.
pub trait TextMeasurer {
    /// Measures a single line of text.
    fn measure(&self, text: &str, style: TextStyle) -> (metrics: TextMetrics)
        requires
            in_range(style.font_size as int),
    ;
}

/// `value * num / den`, rounded toward negative infinity and pinned into the
/// accepted coordinate range.
pub open spec fn scaled(value: int, num: int, den: int) -> int {
    clamp_int((value * num) / den, -(LIMIT as int), LIMIT as int)
}

/// The heuristic metrics of a text of `chars` characters at `font_size`: six
/// tenths of the font size per character, eight tenths above the baseline and
/// two tenths below, no leading.
pub open spec fn heuristic_metrics(chars: nat, font_size: Fixed) -> TextMetrics {
    TextMetrics {
        advance_width: scaled(font_size as int * chars as int, 6, 10) as Fixed,
        ascent: scaled(font_size as int, 8, 10) as Fixed,
        descent: scaled(font_size as int, 2, 10) as Fixed,
        leading: 0,
    }
}

/// A heuristic text measurer that needs no font data.
///
/// It assumes an average glyph width of 0.6 em and a baseline at 0.8 em.
#[derive(Clone, Copy, Debug, Default)]
pub struct HeuristicTextMeasurer;

/// Computes `value * num / den` for small positive `num` and `den`.
pub(crate) fn scale_by(value: i128, num: i128, den: i128) -> (r: Fixed)
    requires
        -0x1_0000_0000_0000_0000 * (LIMIT as int) <= value <= 0x1_0000_0000_0000_0000 * (
        LIMIT as int),
        0 < num <= 10,
        0 < den <= 10,
    ensures
        r == scaled(value as int, num as int, den as int),
{
    assert(-10 * (0x1_0000_0000_0000_0000 * (LIMIT as int)) <= value * num <= 10 * (
    0x1_0000_0000_0000_0000 * (LIMIT as int))) by (nonlinear_arith)
        requires
            -0x1_0000_0000_0000_0000 * (LIMIT as int) <= value <= 0x1_0000_0000_0000_0000 * (
            LIMIT as int),
            0 < num <= 10,
    ;
    let q: i128 = floor_div(value * num, den);
    if q < -(LIMIT as i128) {
        -LIMIT
    } else if q > LIMIT as i128 {
        LIMIT
    } else {
        q as i64
    }
}

impl TextMeasurer for HeuristicTextMeasurer {
    /// Measures by the heuristic: the metrics depend on the number of
    /// characters and the font size alone.
    fn measure(&self, text: &str, style: TextStyle) -> (metrics: TextMetrics)
        ensures
            metrics == heuristic_metrics(text@.len(), style.font_size),
            metrics.in_range(),
    {
        TextMetrics {
            advance_width: heuristic_width(text, style.font_size),
            ascent: scale_by(style.font_size as i128, 8, 10),
            descent: scale_by(style.font_size as i128, 2, 10),
            leading: 0,
        }
    }
}

/// Estimates the advance width of a text by the heuristic.
pub fn heuristic_width(text: &str, font_size: Fixed) -> (w: Fixed)
    requires
        in_range(font_size as int),
    ensures
        w == heuristic_metrics(text@.len(), font_size).advance_width,
        -LIMIT <= w <= LIMIT,
{
    let chars: usize = text.unicode_len();
    let size: i128 = font_size as i128;
    assert(-0x1_0000_0000_0000_0000 * (LIMIT as int) <= size * (chars as i128)
        <= 0x1_0000_0000_0000_0000 * (LIMIT as int)) by (nonlinear_arith)
        requires
            -(LIMIT as int) <= size <= LIMIT as int,
            0 <= chars < 0x1_0000_0000_0000_0000,
    ;
    scale_by(size * (chars as i128), 6, 10)
}

impl TextMetrics {
    /// These metrics with every entry pinned into the accepted coordinate
    /// range.
    pub open spec fn pinned(&self) -> TextMetrics {
        TextMetrics {
            advance_width: crate::fixed::pinned(self.advance_width as int) as Fixed,
            ascent: crate::fixed::pinned(self.ascent as int) as Fixed,
            descent: crate::fixed::pinned(self.descent as int) as Fixed,
            leading: crate::fixed::pinned(self.leading as int) as Fixed,
        }
    }

    /// Pins every entry into the accepted coordinate range. Metrics within
    /// the range stay as they are.
    pub fn pin(self) -> (r: TextMetrics)
        ensures
            r == self.pinned(),
            r.in_range(),
            self.in_range() ==> r == self,
    {
        TextMetrics {
            advance_width: crate::fixed::pin(self.advance_width),
            ascent: crate::fixed::pin(self.ascent),
            descent: crate::fixed::pin(self.descent),
            leading: crate::fixed::pin(self.leading),
        }
    }
}

impl TextMetrics {
    /// Returns whether every metric lies within the accepted coordinate
    /// range.
    pub fn is_in_range(&self) -> (r: bool)
        ensures
            r == self.in_range(),
    {
        crate::fixed::is_in_range(self.advance_width) && crate::fixed::is_in_range(self.ascent)
            && crate::fixed::is_in_range(self.descent) && crate::fixed::is_in_range(self.leading)
    }
}

/// The character sequences of a list of texts.
pub open spec fn texts(labels: Seq<String>) -> Seq<Seq<char>> {
    Seq::new(labels.len(), |i: int| labels[i]@)
}

/// Whether `m` is an answer of `measurer` for `text` set in the default
/// style at `font_size`, pinned into the accepted coordinate range.
///
/// A measurer need not answer the same twice; this holds of every answer it
/// may give.
pub open spec fn measured<M: TextMeasurer>(
    measurer: &M,
    text: Seq<char>,
    font_size: Fixed,
    m: TextMetrics,
) -> bool {
    exists|t: &str, raw: TextMetrics|
        #![trigger call_ensures(M::measure, (measurer, t, TextStyle::with_size(font_size)), raw)]
        {
            &&& t@ == text
            &&& call_ensures(M::measure, (measurer, t, TextStyle::with_size(font_size)), raw)
            &&& m == raw.pinned()
        }
}

/// Whether `ms` holds an answer of `measurer` for each of `texts`, in order.
pub open spec fn all_measured<M: TextMeasurer>(
    measurer: &M,
    texts: Seq<Seq<char>>,
    font_size: Fixed,
    ms: Seq<TextMetrics>,
) -> bool {
    &&& ms.len() == texts.len()
    &&& forall|i: int| 0 <= i < ms.len() ==> measured(measurer, texts[i], font_size, #[trigger] ms[i])
}

/// Measures a text in the default style at `font_size` and pins the answer
/// into the accepted coordinate range.
pub fn measure_pinned<M: TextMeasurer>(measurer: &M, text: &str, font_size: Fixed) -> (m:
    TextMetrics)
    requires
        in_range(font_size as int),
    ensures
        measured(measurer, text@, font_size, m),
        m.in_range(),
{
    let raw = measurer.measure(text, TextStyle::new(font_size));
    assert(call_ensures(M::measure, (measurer, text, TextStyle::with_size(font_size)), raw));
    raw.pin()
}

/// Measures each of a list of texts in the default style at `font_size`.
pub fn measure_all<M: TextMeasurer>(measurer: &M, labels: &Vec<String>, font_size: Fixed) -> (ms:
    Vec<TextMetrics>)
    requires
        in_range(font_size as int),
    ensures
        all_measured(measurer, texts(labels@), font_size, ms@),
        forall|i: int| 0 <= i < ms@.len() ==> (#[trigger] ms@[i]).in_range(),
{
    let mut ms: Vec<TextMetrics> = Vec::new();
    let mut i: usize = 0;
    while i < labels.len()
        invariant
            0 <= i <= labels@.len(),
            in_range(font_size as int),
            ms@.len() == i,
            forall|k: int|
                0 <= k < i ==> measured(measurer, texts(labels@)[k], font_size, #[trigger] ms@[k]),
            forall|k: int| 0 <= k < i ==> (#[trigger] ms@[k]).in_range(),
        decreases labels@.len() - i,
    {
        let m = measure_pinned(measurer, labels[i].as_str(), font_size);
        ms.push(m);
        i = i + 1;
    }
    ms
}

/// What the heuristic measurer answers is the heuristic metrics.
pub proof fn lemma_heuristic_measured(text: Seq<char>, font_size: Fixed, m: TextMetrics)
    requires
        in_range(font_size as int),
        measured(&HeuristicTextMeasurer, text, font_size, m),
    ensures
        m == heuristic_metrics(text.len(), font_size),
{
    let (t, raw) = choose|t: &str, raw: TextMetrics|
        #![trigger call_ensures(HeuristicTextMeasurer::measure, (&HeuristicTextMeasurer, t, TextStyle::with_size(font_size)), raw)]
        {
            &&& t@ == text
            &&& call_ensures(
                HeuristicTextMeasurer::measure,
                (&HeuristicTextMeasurer, t, TextStyle::with_size(font_size)),
                raw,
            )
            &&& m == raw.pinned()
        };
    assert(raw == heuristic_metrics(text.len(), font_size));
    assert(raw.in_range());
}

} // verus!
