//! The per-node style snapshot that the collection reads: the computed values
//! of the few CSS properties it depends on.

use vstd::prelude::*;

verus! {

/// Computed value of `visibility`.
#[derive(Clone, Copy, Debug, PartialEq, Eq, Structural)]
pub enum Visibility {
    Visible,
    NotVisible,
}

/// Computed value of `display`, reduced to the values the collection tells apart.
#[derive(Clone, Copy, Debug, PartialEq, Eq, Structural)]
pub enum DisplayType {
    /// `display: none`.
    NotRendered,
    Block,
    Inline,
    InlineBlock,
    InlineFlex,
    InlineGrid,
    Table,
    TableRow,
    TableCell,
    TableCaption,
    Other,
}

/// Computed value of `position`.
#[derive(Clone, Copy, Debug, PartialEq, Eq, Structural)]
pub enum Position {
    Absolute,
    Other,
}

/// Computed value of `float`.
#[derive(Clone, Copy, Debug, PartialEq, Eq, Structural)]
pub enum Float {
    /// `float: none`.
    Unfloated,
    Floated,
}

/// Computed value of `white-space-collapse`.
#[derive(Clone, Copy, Debug, PartialEq, Eq, Structural)]
pub enum WhiteSpaceCollapse {
    Collapse,
    Preserve,
}

/// Computed value of `text-transform`.
#[derive(Clone, Copy, Debug, PartialEq, Eq, Structural)]
pub enum TextTransform {
    /// `text-transform: none`.
    Unchanged,
    Uppercase,
    Lowercase,
    Capitalize,
}

/// The computed style of one element, read-only during a collection.
#[derive(Clone, Copy, Debug, PartialEq, Eq, Structural)]
pub struct StyleSnapshot {
    pub visibility: Visibility,
    pub display: DisplayType,
    pub position: Position,
    pub float: Float,
    pub white_space_collapse: WhiteSpaceCollapse,
    pub text_transform: TextTransform,
}

impl StyleSnapshot {
    /// A visible, in-flow style with the given `display`, collapsing white
    /// space and leaving case alone.
    pub fn with_display(display: DisplayType) -> (r: StyleSnapshot)
        ensures
            r == (StyleSnapshot {
                visibility: Visibility::Visible,
                display,
                position: Position::Other,
                float: Float::Unfloated,
                white_space_collapse: WhiteSpaceCollapse::Collapse,
                text_transform: TextTransform::Unchanged,
            }),
    {
        StyleSnapshot {
            visibility: Visibility::Visible,
            display,
            position: Position::Other,
            float: Float::Unfloated,
            white_space_collapse: WhiteSpaceCollapse::Collapse,
            text_transform: TextTransform::Unchanged,
        }
    }
}

/// `display` is one of the inline-level box values that start a new
/// formatting context (`inline-block`, `inline-flex`, `inline-grid`).
pub open spec fn is_atomic_inline(d: DisplayType) -> bool {
    d == DisplayType::InlineBlock || d == DisplayType::InlineFlex || d == DisplayType::InlineGrid
}

/// Executable form of [`is_atomic_inline`].
pub fn atomic_inline(d: DisplayType) -> (r: bool)
    ensures
        r == is_atomic_inline(d),
{
    d == DisplayType::InlineBlock || d == DisplayType::InlineFlex || d == DisplayType::InlineGrid
}

} // verus!
