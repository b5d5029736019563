//! The catalogue of properties: their names in canonical order and the
//! values that each one takes.

use vstd::prelude::*;
use super::text::same_text;
use super::value::Kind;

verus! {

/// What a property takes: one value of a kind, or a fixed row of values.
#[derive(Clone, Copy, Debug, PartialEq, Eq, Structural)]
pub enum Syntax {
    Todo,
    Void,
    Length,
    Duration,
    Color,
    Image,
    BorderWidth,
    BorderStyle,
    Display,
    AlignContent,
    AlignItems,
    AlignSelf,
    AlignmentBaseline,
    Float,
    /// A border: its width, its style and its color.
    Border,
    /// The radii of the four corners.
    Corners,
}

impl Syntax {
    /// The kinds of the values, slot by slot.
    pub open spec fn kinds(self) -> Seq<Kind> {
        match self {
            Syntax::Todo => seq![Kind::Todo],
            Syntax::Void => seq![Kind::Void],
            Syntax::Length => seq![Kind::Length],
            Syntax::Duration => seq![Kind::Duration],
            Syntax::Color => seq![Kind::Color],
            Syntax::Image => seq![Kind::Image],
            Syntax::BorderWidth => seq![Kind::BorderWidth],
            Syntax::BorderStyle => seq![Kind::BorderStyle],
            Syntax::Display => seq![Kind::Display],
            Syntax::AlignContent => seq![Kind::AlignContent],
            Syntax::AlignItems => seq![Kind::AlignItems],
            Syntax::AlignSelf => seq![Kind::AlignSelf],
            Syntax::AlignmentBaseline => seq![Kind::AlignmentBaseline],
            Syntax::Float => seq![Kind::Float],
            Syntax::Border => seq![Kind::BorderWidth, Kind::BorderStyle, Kind::Color],
            Syntax::Corners => seq![Kind::Length, Kind::Length, Kind::Length, Kind::Length],
        }
    }

    /// The number of slots.
    pub fn arity(self) -> (count: usize)
        ensures
            count == self.kinds().len(),
            1 <= count <= 4,
    {
        match self {
            Syntax::Border => 3,
            Syntax::Corners => 4,
            _ => 1,
        }
    }

    /// The kind of the value in one slot.
    pub fn kind_at(self, slot: usize) -> (kind: Kind)
        requires
            slot < self.kinds().len(),
        ensures
            kind == self.kinds()[slot as int],
    {
        match self {
            Syntax::Todo => Kind::Todo,
            Syntax::Void => Kind::Void,
            Syntax::Length => Kind::Length,
            Syntax::Duration => Kind::Duration,
            Syntax::Color => Kind::Color,
            Syntax::Image => Kind::Image,
            Syntax::BorderWidth => Kind::BorderWidth,
            Syntax::BorderStyle => Kind::BorderStyle,
            Syntax::Display => Kind::Display,
            Syntax::AlignContent => Kind::AlignContent,
            Syntax::AlignItems => Kind::AlignItems,
            Syntax::AlignSelf => Kind::AlignSelf,
            Syntax::AlignmentBaseline => Kind::AlignmentBaseline,
            Syntax::Float => Kind::Float,
            Syntax::Border => if slot == 0 {
                Kind::BorderWidth
            } else if slot == 1 {
                Kind::BorderStyle
            } else {
                Kind::Color
            },
            Syntax::Corners => Kind::Length,
        }
    }
}

/// The number of properties in the catalogue.
pub const PROPERTY_COUNT: usize = 546;

/// The names of the properties. Their order here is the order in which
/// declarations are written out.
pub const PROPERTY_NAMES: [&'static str; 546] = [
    "accent-color",
    "align-content",
    "align-items",
    "align-self",
    "alignment-baseline",
    "all",
    "animation",
    "animation-delay",
    "animation-direction",
    "animation-duration",
    "animation-fill-mode",
    "animation-iteration-count",
    "animation-name",
    "animation-play-state",
    "animation-timing-function",
    "appearance",
    "aspect-ratio",
    "azimuth",
    "backface-visibility",
    "background",
    "background-attachment",
    "background-blend-mode",
    "background-clip",
    "background-color",
    "background-image",
    "background-origin",
    "background-position",
    "background-repeat",
    "background-size",
    "baseline-shift",
    "baseline-source",
    "block-ellipsis",
    "block-size",
    "block-step",
    "block-step-align",
    "block-step-insert",
    "block-step-round",
    "block-step-size",
    "bookmark-label",
    "bookmark-level",
    "bookmark-state",
    "border",
    "border-block",
    "border-block-color",
    "border-block-end",
    "border-block-end-color",
    "border-block-end-style",
    "border-block-end-width",
    "border-block-start",
    "border-block-start-color",
    "border-block-start-style",
    "border-block-start-width",
    "border-block-style",
    "border-block-width",
    "border-bottom",
    "border-bottom-color",
    "border-bottom-left-radius",
    "border-bottom-right-radius",
    "border-bottom-style",
    "border-bottom-width",
    "border-boundary",
    "border-collapse",
    "border-color",
    "border-end-end-radius",
    "border-end-start-radius",
    "border-image",
    "border-image-outset",
    "border-image-repeat",
    "border-image-slice",
    "border-image-source",
    "border-image-width",
    "border-inline",
    "border-inline-color",
    "border-inline-end",
    "border-inline-end-color",
    "border-inline-end-style",
    "border-inline-end-width",
    "border-inline-start",
    "border-inline-start-color",
    "border-inline-start-style",
    "border-inline-start-width",
    "border-inline-style",
    "border-inline-width",
    "border-left",
    "border-left-color",
    "border-left-style",
    "border-left-width",
    "border-radius",
    "border-right",
    "border-right-color",
    "border-right-style",
    "border-right-width",
    "border-spacing",
    "border-start-end-radius",
    "border-start-start-radius",
    "border-style",
    "border-top",
    "border-top-color",
    "border-top-left-radius",
    "border-top-right-radius",
    "border-top-style",
    "border-top-width",
    "border-width",
    "bottom",
    "box-decoration-break",
    "box-shadow",
    "box-sizing",
    "box-snap",
    "break-after",
    "break-before",
    "break-inside",
    "caption-side",
    "caret",
    "caret-color",
    "caret-shape",
    "chains",
    "clear",
    "clip",
    "clip-path",
    "clip-rule",
    "color",
    "color-adjust",
    "color-interpolation-filters",
    "color-scheme",
    "column-count",
    "column-fill",
    "column-gap",
    "column-rule",
    "column-rule-color",
    "column-rule-style",
    "column-rule-width",
    "column-span",
    "column-width",
    "columns",
    "contain",
    "contain-intrinsic-block-size",
    "contain-intrinsic-height",
    "contain-intrinsic-inline-size",
    "contain-intrinsic-size",
    "contain-intrinsic-width",
    "container",
    "container-name",
    "container-type",
    "content",
    "content-visibility",
    "continue",
    "counter-increment",
    "counter-reset",
    "counter-set",
    "cue",
    "cue-after",
    "cue-before",
    "cursor",
    "direction",
    "display",
    "dominant-baseline",
    "elevation",
    "empty-cells",
    "fill",
    "fill-break",
    "fill-color",
    "fill-image",
    "fill-opacity",
    "fill-origin",
    "fill-position",
    "fill-repeat",
    "fill-rule",
    "fill-size",
    "filter",
    "flex",
    "flex-basis",
    "flex-direction",
    "flex-flow",
    "flex-grow",
    "flex-shrink",
    "flex-wrap",
    "float",
    "float-defer",
    "float-offset",
    "float-reference",
    "flood-color",
    "flood-opacity",
    "flow",
    "flow-from",
    "flow-into",
    "font",
    "font-family",
    "font-feature-settings",
    "font-kerning",
    "font-language-override",
    "font-optical-sizing",
    "font-palette",
    "font-size",
    "font-size-adjust",
    "font-stretch",
    "font-style",
    "font-synthesis",
    "font-synthesis-small-caps",
    "font-synthesis-style",
    "font-synthesis-weight",
    "font-variant",
    "font-variant-alternates",
    "font-variant-caps",
    "font-variant-east-asian",
    "font-variant-emoji",
    "font-variant-ligatures",
    "font-variant-numeric",
    "font-variant-position",
    "font-variation-settings",
    "font-weight",
    "footnote-display",
    "footnote-policy",
    "forced-color-adjust",
    "gap",
    "glyph-orientation-vertical",
    "grid",
    "grid-area",
    "grid-auto-columns",
    "grid-auto-flow",
    "grid-auto-rows",
    "grid-column",
    "grid-column-end",
    "grid-column-start",
    "grid-row",
    "grid-row-end",
    "grid-row-start",
    "grid-template",
    "grid-template-areas",
    "grid-template-columns",
    "grid-template-rows",
    "hanging-punctuation",
    "height",
    "hyphenate-character",
    "hyphenate-limit-chars",
    "hyphenate-limit-last",
    "hyphenate-limit-lines",
    "hyphenate-limit-zone",
    "hyphens",
    "image-orientation",
    "image-rendering",
    "image-resolution",
    "initial-letter",
    "initial-letter-align",
    "initial-letter-wrap",
    "inline-size",
    "inline-sizing",
    "input-security",
    "inset",
    "inset-block",
    "inset-block-end",
    "inset-block-start",
    "inset-inline",
    "inset-inline-end",
    "inset-inline-start",
    "isolation",
    "justify-content",
    "justify-items",
    "justify-self",
    "leading-trim",
    "left",
    "letter-spacing",
    "lighting-color",
    "line-break",
    "line-clamp",
    "line-grid",
    "line-height",
    "line-height-step",
    "line-padding",
    "line-snap",
    "list-style",
    "list-style-image",
    "list-style-position",
    "list-style-type",
    "margin",
    "margin-block",
    "margin-block-end",
    "margin-block-start",
    "margin-bottom",
    "margin-break",
    "margin-inline",
    "margin-inline-end",
    "margin-inline-start",
    "margin-left",
    "margin-right",
    "margin-top",
    "margin-trim",
    "marker",
    "marker-end",
    "marker-knockout-left",
    "marker-knockout-right",
    "marker-mid",
    "marker-pattern",
    "marker-segment",
    "marker-side",
    "marker-start",
    "mask",
    "mask-border",
    "mask-border-mode",
    "mask-border-outset",
    "mask-border-repeat",
    "mask-border-slice",
    "mask-border-source",
    "mask-border-width",
    "mask-clip",
    "mask-composite",
    "mask-image",
    "mask-mode",
    "mask-origin",
    "mask-position",
    "mask-repeat",
    "mask-size",
    "mask-type",
    "max-block-size",
    "max-height",
    "max-inline-size",
    "max-lines",
    "max-width",
    "min-block-size",
    "min-height",
    "min-inline-size",
    "min-intrinsic-sizing",
    "min-width",
    "mix-blend-mode",
    "nav-down",
    "nav-left",
    "nav-right",
    "nav-up",
    "object-fit",
    "object-position",
    "object-view-box",
    "offset",
    "offset-anchor",
    "offset-distance",
    "offset-path",
    "offset-position",
    "offset-rotate",
    "opacity",
    "order",
    "orphans",
    "outline",
    "outline-color",
    "outline-offset",
    "outline-style",
    "outline-width",
    "overflow",
    "overflow-anchor",
    "overflow-block",
    "overflow-clip-margin",
    "overflow-inline",
    "overflow-wrap",
    "overflow-x",
    "overflow-y",
    "overscroll-behavior",
    "overscroll-behavior-block",
    "overscroll-behavior-inline",
    "overscroll-behavior-x",
    "overscroll-behavior-y",
    "padding",
    "padding-block",
    "padding-block-end",
    "padding-block-start",
    "padding-bottom",
    "padding-inline",
    "padding-inline-end",
    "padding-inline-start",
    "padding-left",
    "padding-right",
    "padding-top",
    "page",
    "page-break-after",
    "page-break-before",
    "page-break-inside",
    "pause",
    "pause-after",
    "pause-before",
    "perspective",
    "perspective-origin",
    "pitch",
    "pitch-range",
    "place-content",
    "place-items",
    "place-self",
    "play-during",
    "pointer-events",
    "position",
    "print-color-adjust",
    "property",
    "property-name",
    "quotes",
    "region-fragment",
    "resize",
    "rest",
    "rest-after",
    "rest-before",
    "richness",
    "right",
    "rotate",
    "row-gap",
    "ruby-align",
    "ruby-merge",
    "ruby-overhang",
    "ruby-position",
    "running",
    "scale",
    "scroll-behavior",
    "scroll-margin",
    "scroll-margin-block",
    "scroll-margin-block-end",
    "scroll-margin-block-start",
    "scroll-margin-bottom",
    "scroll-margin-inline",
    "scroll-margin-inline-end",
    "scroll-margin-inline-start",
    "scroll-margin-left",
    "scroll-margin-right",
    "scroll-margin-top",
    "scroll-padding",
    "scroll-padding-block",
    "scroll-padding-block-end",
    "scroll-padding-block-start",
    "scroll-padding-bottom",
    "scroll-padding-inline",
    "scroll-padding-inline-end",
    "scroll-padding-inline-start",
    "scroll-padding-left",
    "scroll-padding-right",
    "scroll-padding-top",
    "scroll-snap-align",
    "scroll-snap-stop",
    "scroll-snap-type",
    "scrollbar-color",
    "scrollbar-gutter",
    "scrollbar-width",
    "shape-image-threshold",
    "shape-inside",
    "shape-margin",
    "shape-outside",
    "spatial-navigation-action",
    "spatial-navigation-contain",
    "spatial-navigation-function",
    "speak",
    "speak-as",
    "speak-header",
    "speak-numeral",
    "speak-punctuation",
    "speech-rate",
    "stress",
    "string-set",
    "stroke",
    "stroke-align",
    "stroke-alignment",
    "stroke-break",
    "stroke-color",
    "stroke-dash-corner",
    "stroke-dash-justify",
    "stroke-dashadjust",
    "stroke-dasharray",
    "stroke-dashcorner",
    "stroke-dashoffset",
    "stroke-image",
    "stroke-linecap",
    "stroke-linejoin",
    "stroke-miterlimit",
    "stroke-opacity",
    "stroke-origin",
    "stroke-position",
    "stroke-repeat",
    "stroke-size",
    "stroke-width",
    "tab-size",
    "table-layout",
    "text-align",
    "text-align-all",
    "text-align-last",
    "text-combine-upright",
    "text-decoration",
    "text-decoration-color",
    "text-decoration-line",
    "text-decoration-skip",
    "text-decoration-skip-box",
    "text-decoration-skip-ink",
    "text-decoration-skip-inset",
    "text-decoration-skip-self",
    "text-decoration-skip-spaces",
    "text-decoration-style",
    "text-decoration-thickness",
    "text-decoration-trim",
    "text-edge",
    "text-emphasis",
    "text-emphasis-color",
    "text-emphasis-position",
    "text-emphasis-skip",
    "text-emphasis-style",
    "text-group-align",
    "text-indent",
    "text-justify",
    "text-orientation",
    "text-overflow",
    "text-shadow",
    "text-space-collapse",
    "text-space-trim",
    "text-spacing",
    "text-transform",
    "text-underline-offset",
    "text-underline-position",
    "text-wrap",
    "top",
    "transform",
    "transform-box",
    "transform-origin",
    "transform-style",
    "transition",
    "transition-delay",
    "transition-duration",
    "transition-property",
    "transition-timing-function",
    "translate",
    "unicode-bidi",
    "user-select",
    "vertical-align",
    "visibility",
    "voice-balance",
    "voice-duration",
    "voice-family",
    "voice-pitch",
    "voice-range",
    "voice-rate",
    "voice-stress",
    "voice-volume",
    "volume",
    "white-space",
    "widows",
    "width",
    "will-change",
    "word-boundary-detection",
    "word-boundary-expansion",
    "word-break",
    "word-spacing",
    "word-wrap",
    "wrap-after",
    "wrap-before",
    "wrap-flow",
    "wrap-inside",
    "wrap-through",
    "writing-mode",
    "z-index",
];

/// What each property takes, in the order of the names.
pub const PROPERTY_SYNTAX: [Syntax; 546] = [
    // accent-color .. azimuth
    Syntax::Color, Syntax::AlignContent, Syntax::AlignItems, Syntax::AlignSelf, Syntax::AlignmentBaseline, Syntax::Void,
    Syntax::Todo, Syntax::Duration, Syntax::Todo, Syntax::Duration, Syntax::Todo, Syntax::Todo,
    Syntax::Todo, Syntax::Todo, Syntax::Todo, Syntax::Todo, Syntax::Todo, Syntax::Todo,
    // backface-visibility .. break-inside
    Syntax::Todo, Syntax::Todo, Syntax::Todo, Syntax::Todo, Syntax::Todo, Syntax::Color,
    Syntax::Image, Syntax::Todo, Syntax::Todo, Syntax::Todo, Syntax::Todo, Syntax::Todo,
    Syntax::Todo, Syntax::Todo, Syntax::Todo, Syntax::Todo, Syntax::Todo, Syntax::Todo,
    Syntax::Todo, Syntax::Todo, Syntax::Todo, Syntax::Todo, Syntax::Todo, Syntax::Border,
    Syntax::Border, Syntax::Color, Syntax::Border, Syntax::Color, Syntax::BorderStyle, Syntax::Length,
    Syntax::Border, Syntax::Color, Syntax::BorderStyle, Syntax::Length, Syntax::BorderStyle, Syntax::BorderWidth,
    Syntax::Border, Syntax::Color, Syntax::Length, Syntax::Length, Syntax::BorderStyle, Syntax::BorderWidth,
    Syntax::Todo, Syntax::Todo, Syntax::Color, Syntax::Length, Syntax::Length, Syntax::Image,
    Syntax::Length, Syntax::Todo, Syntax::Todo, Syntax::Todo, Syntax::BorderWidth, Syntax::Border,
    Syntax::Color, Syntax::Border, Syntax::Color, Syntax::BorderStyle, Syntax::BorderWidth, Syntax::Border,
    Syntax::Color, Syntax::BorderStyle, Syntax::Length, Syntax::BorderStyle, Syntax::BorderWidth, Syntax::Border,
    Syntax::Color, Syntax::BorderStyle, Syntax::BorderWidth, Syntax::Corners, Syntax::Border, Syntax::Color,
    Syntax::BorderStyle, Syntax::BorderWidth, Syntax::Todo, Syntax::Length, Syntax::Length, Syntax::BorderStyle,
    Syntax::Border, Syntax::Color, Syntax::Length, Syntax::Length, Syntax::BorderStyle, Syntax::BorderWidth,
    Syntax::BorderWidth, Syntax::Length, Syntax::Todo, Syntax::Todo, Syntax::Todo, Syntax::Todo,
    Syntax::Todo, Syntax::Todo, Syntax::Todo,
    // caption-side .. cursor
    Syntax::Todo, Syntax::Todo, Syntax::Color, Syntax::Todo, Syntax::Todo, Syntax::Todo,
    Syntax::Todo, Syntax::Todo, Syntax::Todo, Syntax::Color, Syntax::Todo, Syntax::Todo,
    Syntax::Todo, Syntax::Todo, Syntax::Todo, Syntax::Todo, Syntax::Todo, Syntax::Color,
    Syntax::Todo, Syntax::Length, Syntax::Todo, Syntax::Length, Syntax::Todo, Syntax::Todo,
    Syntax::Todo, Syntax::Length, Syntax::Todo, Syntax::Todo, Syntax::Length, Syntax::Todo,
    Syntax::Todo, Syntax::Todo, Syntax::Todo, Syntax::Todo, Syntax::Todo, Syntax::Todo,
    Syntax::Todo, Syntax::Todo, Syntax::Todo, Syntax::Todo, Syntax::Todo, Syntax::Todo,
    // direction .. dominant-baseline
    Syntax::Todo, Syntax::Display, Syntax::Todo,
    // elevation .. empty-cells
    Syntax::Todo, Syntax::Todo,
    // fill .. forced-color-adjust
    Syntax::Todo, Syntax::Todo, Syntax::Color, Syntax::Image, Syntax::Todo, Syntax::Todo,
    Syntax::Todo, Syntax::Todo, Syntax::Todo, Syntax::Todo, Syntax::Todo, Syntax::Todo,
    Syntax::Todo, Syntax::Todo, Syntax::Todo, Syntax::Todo, Syntax::Todo, Syntax::Todo,
    Syntax::Float, Syntax::Todo, Syntax::Todo, Syntax::Todo, Syntax::Color, Syntax::Todo,
    Syntax::Todo, Syntax::Todo, Syntax::Todo, Syntax::Todo, Syntax::Todo, Syntax::Todo,
    Syntax::Todo, Syntax::Todo, Syntax::Todo, Syntax::Todo, Syntax::Todo, Syntax::Todo,
    Syntax::Todo, Syntax::Todo, Syntax::Todo, Syntax::Todo, Syntax::Todo, Syntax::Todo,
    Syntax::Todo, Syntax::Todo, Syntax::Todo, Syntax::Todo, Syntax::Todo, Syntax::Todo,
    Syntax::Todo, Syntax::Todo, Syntax::Todo, Syntax::Todo, Syntax::Todo, Syntax::Todo,
    Syntax::Todo,
    // gap .. grid-template-rows
    Syntax::Todo, Syntax::Todo, Syntax::Todo, Syntax::Todo, Syntax::Todo, Syntax::Todo,
    Syntax::Todo, Syntax::Todo, Syntax::Todo, Syntax::Todo, Syntax::Todo, Syntax::Todo,
    Syntax::Todo, Syntax::Todo, Syntax::Todo, Syntax::Todo, Syntax::Todo,
    // hanging-punctuation .. hyphens
    Syntax::Todo, Syntax::Length, Syntax::Todo, Syntax::Todo, Syntax::Todo, Syntax::Todo,
    Syntax::Todo, Syntax::Todo,
    // image-orientation .. isolation
    Syntax::Todo, Syntax::Todo, Syntax::Todo, Syntax::Todo, Syntax::Todo, Syntax::Todo,
    Syntax::Todo, Syntax::Todo, Syntax::Todo, Syntax::Todo, Syntax::Todo, Syntax::Todo,
    Syntax::Todo, Syntax::Todo, Syntax::Todo, Syntax::Todo, Syntax::Todo,
    // justify-content .. justify-self
    Syntax::Todo, Syntax::Todo, Syntax::Todo,
    // leading-trim .. list-style-type
    Syntax::Todo, Syntax::Length, Syntax::Todo, Syntax::Color, Syntax::Todo, Syntax::Todo,
    Syntax::Todo, Syntax::Length, Syntax::Todo, Syntax::Todo, Syntax::Todo, Syntax::Todo,
    Syntax::Image, Syntax::Todo, Syntax::Todo,
    // margin .. mix-blend-mode
    Syntax::Length, Syntax::Length, Syntax::Length, Syntax::Length, Syntax::Length, Syntax::Length,
    Syntax::Length, Syntax::Length, Syntax::Length, Syntax::Length, Syntax::Length, Syntax::Length,
    Syntax::Length, Syntax::Todo, Syntax::Todo, Syntax::Length, Syntax::Length, Syntax::Todo,
    Syntax::Todo, Syntax::Todo, Syntax::Todo, Syntax::Todo, Syntax::Todo, Syntax::Todo,
    Syntax::Todo, Syntax::Todo, Syntax::Todo, Syntax::Todo, Syntax::Todo, Syntax::Length,
    Syntax::Todo, Syntax::Todo, Syntax::Image, Syntax::Todo, Syntax::Todo, Syntax::Todo,
    Syntax::Todo, Syntax::Todo, Syntax::Todo, Syntax::Todo, Syntax::Length, Syntax::Todo,
    Syntax::Todo, Syntax::Length, Syntax::Todo, Syntax::Length, Syntax::Todo, Syntax::Todo,
    Syntax::Length, Syntax::Todo,
    // nav-down .. nav-up
    Syntax::Todo, Syntax::Length, Syntax::Length, Syntax::Todo,
    // object-fit .. overscroll-behavior-y
    Syntax::Todo, Syntax::Todo, Syntax::Todo, Syntax::Todo, Syntax::Todo, Syntax::Todo,
    Syntax::Todo, Syntax::Todo, Syntax::Todo, Syntax::Todo, Syntax::Todo, Syntax::Todo,
    Syntax::Todo, Syntax::Color, Syntax::Todo, Syntax::Todo, Syntax::Length, Syntax::Todo,
    Syntax::Todo, Syntax::Todo, Syntax::Length, Syntax::Todo, Syntax::Todo, Syntax::Todo,
    Syntax::Todo, Syntax::Todo, Syntax::Todo, Syntax::Todo, Syntax::Todo, Syntax::Todo,
    // padding .. property-name
    Syntax::Length, Syntax::Length, Syntax::Length, Syntax::Length, Syntax::Length, Syntax::Length,
    Syntax::Length, Syntax::Length, Syntax::Length, Syntax::Length, Syntax::Length, Syntax::Todo,
    Syntax::Todo, Syntax::Todo, Syntax::Todo, Syntax::Todo, Syntax::Todo, Syntax::Todo,
    Syntax::Todo, Syntax::Todo, Syntax::Todo, Syntax::Todo, Syntax::Todo, Syntax::Todo,
    Syntax::Todo, Syntax::Todo, Syntax::Todo, Syntax::Todo, Syntax::Todo, Syntax::Todo,
    Syntax::Todo,
    // quotes .. quotes
    Syntax::Todo,
    // region-fragment .. running
    Syntax::Todo, Syntax::Todo, Syntax::Todo, Syntax::Todo, Syntax::Todo, Syntax::Todo,
    Syntax::Length, Syntax::Todo, Syntax::Todo, Syntax::Todo, Syntax::Todo, Syntax::Todo,
    Syntax::Todo, Syntax::Todo,
    // scale .. stroke-width
    Syntax::Todo, Syntax::Todo, Syntax::Length, Syntax::Todo, Syntax::Todo, Syntax::Todo,
    Syntax::Length, Syntax::Todo, Syntax::Todo, Syntax::Todo, Syntax::Length, Syntax::Length,
    Syntax::Length, Syntax::Todo, Syntax::Todo, Syntax::Todo, Syntax::Todo, Syntax::Length,
    Syntax::Todo, Syntax::Todo, Syntax::Todo, Syntax::Length, Syntax::Length, Syntax::Length,
    Syntax::Todo, Syntax::Todo, Syntax::Todo, Syntax::Color, Syntax::Todo, Syntax::Length,
    Syntax::Todo, Syntax::Todo, Syntax::Length, Syntax::Todo, Syntax::Todo, Syntax::Todo,
    Syntax::Todo, Syntax::Todo, Syntax::Todo, Syntax::Todo, Syntax::Todo, Syntax::Todo,
    Syntax::Todo, Syntax::Todo, Syntax::Todo, Syntax::Todo, Syntax::Todo, Syntax::Todo,
    Syntax::Todo, Syntax::Color, Syntax::Todo, Syntax::Todo, Syntax::Todo, Syntax::Todo,
    Syntax::Todo, Syntax::Todo, Syntax::Image, Syntax::Todo, Syntax::Todo, Syntax::Todo,
    Syntax::Todo, Syntax::Todo, Syntax::Todo, Syntax::Todo, Syntax::Todo, Syntax::Length,
    // tab-size .. translate
    Syntax::Todo, Syntax::Todo, Syntax::Todo, Syntax::Todo, Syntax::Todo, Syntax::Todo,
    Syntax::Todo, Syntax::Color, Syntax::Todo, Syntax::Todo, Syntax::Todo, Syntax::Todo,
    Syntax::Todo, Syntax::Todo, Syntax::Todo, Syntax::Todo, Syntax::Todo, Syntax::Todo,
    Syntax::Todo, Syntax::Todo, Syntax::Color, Syntax::Todo, Syntax::Todo, Syntax::Todo,
    Syntax::Todo, Syntax::Todo, Syntax::Todo, Syntax::Todo, Syntax::Todo, Syntax::Todo,
    Syntax::Todo, Syntax::Todo, Syntax::Todo, Syntax::Todo, Syntax::Todo, Syntax::Todo,
    Syntax::Todo, Syntax::Length, Syntax::Todo, Syntax::Todo, Syntax::Todo, Syntax::Todo,
    Syntax::Todo, Syntax::Todo, Syntax::Todo, Syntax::Todo, Syntax::Todo, Syntax::Todo,
    // unicode-bidi .. user-select
    Syntax::Todo, Syntax::Todo,
    // vertical-align .. volume
    Syntax::Todo, Syntax::Todo, Syntax::Todo, Syntax::Todo, Syntax::Todo, Syntax::Todo,
    Syntax::Todo, Syntax::Todo, Syntax::Todo, Syntax::Todo, Syntax::Todo,
    // white-space .. writing-mode
    Syntax::Todo, Syntax::Todo, Syntax::Length, Syntax::Todo, Syntax::Todo, Syntax::Todo,
    Syntax::Todo, Syntax::Todo, Syntax::Todo, Syntax::Todo, Syntax::Todo, Syntax::Todo,
    Syntax::Todo, Syntax::Todo, Syntax::Todo,
    // z-index .. z-index
    Syntax::Todo,
];

/// The name of the property at a place in the catalogue.
pub open spec fn property_name(index: int) -> Seq<char>
    recommends
        0 <= index < PROPERTY_COUNT,
{
    PROPERTY_NAMES[index]@
}

/// The kinds of the values that the property at a place takes.
pub open spec fn property_kinds(index: int) -> Seq<Kind>
    recommends
        0 <= index < PROPERTY_COUNT,
{
    PROPERTY_SYNTAX[index].kinds()
}

/// The first place at or after `start` that holds the name.
pub open spec fn index_from(name: Seq<char>, start: int) -> Option<int>
    decreases PROPERTY_COUNT - start,
{
    if start < 0 || start >= PROPERTY_COUNT {
        None
    } else if property_name(start) == name {
        Some(start)
    } else {
        index_from(name, start + 1)
    }
}

/// The place of the property with the given name.
pub open spec fn property_index(name: Seq<char>) -> Option<int> {
    index_from(name, 0)
}

/// A place that `property_index` gives lies in the catalogue and holds
/// the name; where it gives none, no place holds the name.
pub proof fn lemma_property_index(name: Seq<char>)
    ensures
        match property_index(name) {
            Some(index) => 0 <= index < PROPERTY_COUNT && property_name(index) == name,
            None => forall|i: int| 0 <= i < PROPERTY_COUNT ==> property_name(i) != name,
        },
{
    lemma_index_from(name, 0);
}

proof fn lemma_index_from(name: Seq<char>, start: int)
    requires
        0 <= start <= PROPERTY_COUNT,
    ensures
        match index_from(name, start) {
            Some(index) => start <= index < PROPERTY_COUNT && property_name(index) == name,
            None => forall|i: int| start <= i < PROPERTY_COUNT ==> property_name(i) != name,
        },
    decreases PROPERTY_COUNT - start,
{
    if start < PROPERTY_COUNT && property_name(start) != name {
        lemma_index_from(name, start + 1);
    }
}

/// The name of a property.
pub fn name_of(index: usize) -> (name: &'static str)
    requires
        index < PROPERTY_COUNT,
    ensures
        name@ == property_name(index as int),
{
    PROPERTY_NAMES[index]
}

/// What a property takes.
pub fn syntax_of(index: usize) -> (syntax: Syntax)
    requires
        index < PROPERTY_COUNT,
    ensures
        syntax.kinds() == property_kinds(index as int),
{
    PROPERTY_SYNTAX[index]
}

/// Looks a property up by its name.
pub fn find_property(name: &str) -> (found: Option<usize>)
    ensures
        match found {
            Some(index) => property_index(name@) == Some(index as int),
            None => property_index(name@) is None,
        },
{
    let mut i: usize = 0;
    while i < PROPERTY_COUNT
        invariant
            i <= PROPERTY_COUNT,
            index_from(name@, i as int) == property_index(name@),
        decreases PROPERTY_COUNT - i,
    {
        if same_text(name, PROPERTY_NAMES[i]) {
            return Some(i);
        }
        i = i + 1;
    }
    None
}

} // verus!
