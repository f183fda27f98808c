//! What is asked of the glyph renderer: two lines of text, each with its
//! font size and fill, and the canvas rule for the rendered fragment.

use vstd::prelude::*;
use crate::poem::{attribution_of, PoemRecord, PoemView};

verus! {

/// The base font size, of which each line takes a fraction.
pub const BASE_SIZE: u32 = 112;

/// The poem's text is set at the base size divided by this.
pub const BODY_DIVISOR: u32 = 2;

/// The attribution is set at the base size divided by this.
pub const ATTRIBUTION_DIVISOR: u32 = 3;

/// The canvas is as wide as the laid out text and taller than it by this
/// ratio: numerator.
pub const CANVAS_HEIGHT_NUMERATOR: u32 = 3;

/// The canvas height ratio: denominator.
pub const CANVAS_HEIGHT_DENOMINATOR: u32 = 2;

/// Fill of the poem's text.
pub const BODY_FILL: &'static str = "#cca4e3";

/// Fill of the attribution.
pub const ATTRIBUTION_FILL: &'static str = "#e4c6d0";

/// One line of text to lay out: the font size is
/// `size_numerator / size_denominator`, the canvas height is the text's
/// height times `height_numerator / height_denominator`.
#[derive(Debug, Clone, PartialEq, Eq)]
pub struct FragmentJob {
    pub text: String,
    pub size_numerator: u32,
    pub size_denominator: u32,
    pub height_numerator: u32,
    pub height_denominator: u32,
    pub fill: String,
}

/// The mathematical value of a `FragmentJob`.
pub struct FragmentJobView {
    pub text: Seq<char>,
    pub size_numerator: u32,
    pub size_denominator: u32,
    pub height_numerator: u32,
    pub height_denominator: u32,
    pub fill: Seq<char>,
}

impl View for FragmentJob {
    type V = FragmentJobView;

    open spec fn view(&self) -> FragmentJobView {
        FragmentJobView {
            text: self.text@,
            size_numerator: self.size_numerator,
            size_denominator: self.size_denominator,
            height_numerator: self.height_numerator,
            height_denominator: self.height_denominator,
            fill: self.fill@,
        }
    }
}

impl FragmentJob {
    /// Both ratios have a denominator other than zero.
    pub open spec fn well_formed(&self) -> bool {
        self.size_denominator != 0 && self.height_denominator != 0
    }
}

/// The job for the poem's text: half the base size, filled `#cca4e3`.
pub open spec fn body_job(poem: PoemView) -> FragmentJobView {
    FragmentJobView {
        text: poem.content,
        size_numerator: 112,
        size_denominator: 2,
        height_numerator: 3,
        height_denominator: 2,
        fill: "#cca4e3"@,
    }
}

/// The job for the attribution line: a third of the base size, filled
/// `#e4c6d0`.
pub open spec fn attribution_job(poem: PoemView) -> FragmentJobView {
    FragmentJobView {
        text: attribution_of(poem),
        size_numerator: 112,
        size_denominator: 3,
        height_numerator: 3,
        height_denominator: 2,
        fill: "#e4c6d0"@,
    }
}

/// The two lines to lay out for a poem: its text first, then its
/// attribution.
pub fn plan_fragments(poem: &PoemRecord) -> (jobs: (FragmentJob, FragmentJob))
    ensures
        jobs.0@ == body_job(poem@),
        jobs.1@ == attribution_job(poem@),
        jobs.0.well_formed(),
        jobs.1.well_formed(),
{
    let body = FragmentJob {
        text: poem.content.clone(),
        size_numerator: BASE_SIZE,
        size_denominator: BODY_DIVISOR,
        height_numerator: CANVAS_HEIGHT_NUMERATOR,
        height_denominator: CANVAS_HEIGHT_DENOMINATOR,
        fill: BODY_FILL.to_owned(),
    };
    let attribution = FragmentJob {
        text: poem.attribution(),
        size_numerator: BASE_SIZE,
        size_denominator: ATTRIBUTION_DIVISOR,
        height_numerator: CANVAS_HEIGHT_NUMERATOR,
        height_denominator: CANVAS_HEIGHT_DENOMINATOR,
        fill: ATTRIBUTION_FILL.to_owned(),
    };
    (body, attribution)
}

} // verus!
