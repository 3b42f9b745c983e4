//! Paint-order conventions for chart-generated marks.
//!
//! Every mark carries a paint-order integer: lower values paint first. The
//! chart layer sets them consistently so callers need not tune paint order by
//! hand. The values are coarse buckets; renderers break ties by mark id.

use vstd::prelude::*;

verus! {

/// Plot background and frame fills.
pub const PLOT_BACKGROUND: i32 = -100;

/// Gridlines, drawn behind series.
pub const GRID_LINES: i32 = -50;

/// Filled series marks (bars, areas).
pub const SERIES_FILL: i32 = 0;

/// Stroked series marks (lines, rules).
pub const SERIES_STROKE: i32 = 10;

/// Point series marks, drawn above lines.
pub const SERIES_POINTS: i32 = 20;

/// Axis domain line and tick marks.
pub const AXIS_RULES: i32 = 30;

/// Axis tick labels.
pub const AXIS_LABELS: i32 = 40;

/// Axis title labels.
pub const AXIS_TITLES: i32 = 50;

/// Legend swatches.
pub const LEGEND_SWATCHES: i32 = 60;

/// Legend labels.
pub const LEGEND_LABELS: i32 = 70;

/// Chart-level titles and annotations.
pub const TITLES: i32 = 80;

} // verus!
