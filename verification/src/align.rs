//! Alignment selectors and their toolkit constants.
//!
//! The toolkit names each relative placement with a small `u8` constant
//! (`lv_align_t`, `lv_label_align_t`).  The enumerations here are closed: a
//! `match` with no fallback arm translates every selector, so adding a variant
//! without a mapping entry fails to compile.

use vstd::prelude::*;

verus! {

/// Relative-positioning rule applied between two widgets: the center
/// placement, nine placements inside the base widget, and eleven placements
/// outside its edges.
#[derive(Clone, Copy, Debug)]
pub enum ObjectAlign {
    Center,
    InTopLeft,
    InTopMid,
    InTopRight,
    InBottomLeft,
    InBottomMid,
    InBottomRight,
    InLeftMid,
    InRightMid,
    OutTopLeft,
    OutTopMid,
    OutTopRight,
    OutBottomLeft,
    OutBottomMid,
    OutBottomRight,
    OutLeftTop,
    OutLeftMid,
    OutLeftBottom,
    OutRightTop,
    OutRightMid,
    OutRightBottom,
}

/// The toolkit constant (`LV_ALIGN_*`) that stands for each selector.
pub open spec fn align_code(a: ObjectAlign) -> u8 {
    match a {
        ObjectAlign::Center => 0,
        ObjectAlign::InTopLeft => 1,
        ObjectAlign::InTopMid => 2,
        ObjectAlign::InTopRight => 3,
        ObjectAlign::InBottomLeft => 4,
        ObjectAlign::InBottomMid => 5,
        ObjectAlign::InBottomRight => 6,
        ObjectAlign::InLeftMid => 7,
        ObjectAlign::InRightMid => 8,
        ObjectAlign::OutTopLeft => 9,
        ObjectAlign::OutTopMid => 10,
        ObjectAlign::OutTopRight => 11,
        ObjectAlign::OutBottomLeft => 12,
        ObjectAlign::OutBottomMid => 13,
        ObjectAlign::OutBottomRight => 14,
        ObjectAlign::OutLeftTop => 15,
        ObjectAlign::OutLeftMid => 16,
        ObjectAlign::OutLeftBottom => 17,
        ObjectAlign::OutRightTop => 18,
        ObjectAlign::OutRightMid => 19,
        ObjectAlign::OutRightBottom => 20,
    }
}

impl ObjectAlign {
    /// The toolkit constant for this selector, as an `lv_align_t` value.
    pub fn to_raw(&self) -> (code: u8)
        ensures
            code == align_code(*self),
    {
        match self {
            ObjectAlign::Center => 0,
            ObjectAlign::InTopLeft => 1,
            ObjectAlign::InTopMid => 2,
            ObjectAlign::InTopRight => 3,
            ObjectAlign::InBottomLeft => 4,
            ObjectAlign::InBottomMid => 5,
            ObjectAlign::InBottomRight => 6,
            ObjectAlign::InLeftMid => 7,
            ObjectAlign::InRightMid => 8,
            ObjectAlign::OutTopLeft => 9,
            ObjectAlign::OutTopMid => 10,
            ObjectAlign::OutTopRight => 11,
            ObjectAlign::OutBottomLeft => 12,
            ObjectAlign::OutBottomMid => 13,
            ObjectAlign::OutBottomRight => 14,
            ObjectAlign::OutLeftTop => 15,
            ObjectAlign::OutLeftMid => 16,
            ObjectAlign::OutLeftBottom => 17,
            ObjectAlign::OutRightTop => 18,
            ObjectAlign::OutRightMid => 19,
            ObjectAlign::OutRightBottom => 20,
        }
    }
}

/// No two alignment selectors share a toolkit constant: the mapping is
/// injective, so a constant handed to the toolkit identifies the selector.
pub proof fn lemma_align_code_injective(a: ObjectAlign, b: ObjectAlign)
    ensures
        align_code(a) == align_code(b) ==> a == b,
{
}

/// Every alignment selector maps into the toolkit's 21-value range.
pub proof fn lemma_align_code_range(a: ObjectAlign)
    ensures
        align_code(a) <= 20,
{
}

/// Justification rule for the text of a label.
#[derive(Clone, Copy, Debug)]
pub enum LabelAlign {
    Left,
    Center,
    Right,
    Auto,
}

/// The toolkit constant (`LV_LABEL_ALIGN_*`) that stands for each selector.
pub open spec fn label_align_code(a: LabelAlign) -> u8 {
    match a {
        LabelAlign::Left => 0,
        LabelAlign::Center => 1,
        LabelAlign::Right => 2,
        LabelAlign::Auto => 3,
    }
}

impl LabelAlign {
    /// The toolkit constant for this selector, as an `lv_label_align_t` value.
    pub fn to_raw(&self) -> (code: u8)
        ensures
            code == label_align_code(*self),
    {
        match self {
            LabelAlign::Left => 0,
            LabelAlign::Center => 1,
            LabelAlign::Right => 2,
            LabelAlign::Auto => 3,
        }
    }
}

/// No two text-alignment selectors share a toolkit constant.
pub proof fn lemma_label_align_code_injective(a: LabelAlign, b: LabelAlign)
    ensures
        label_align_code(a) == label_align_code(b) ==> a == b,
{
}

} // verus!
