//! What is handed to the renderer for one frame: the window flags and the
//! size bounds, fitted so that the bounds are never degenerate.

use crate::config::{Scalar, Size};
use vstd::prelude::*;

verus! {

/// The window flag that forbids resizing, as a mask.
pub const WINDOW_NO_RESIZE: u32 = 2;

/// The window flag that forbids collapsing, as a mask.
pub const WINDOW_NO_COLLAPSE: u32 = 32;

/// The word of `imgui::WindowFlags::NO_RESIZE`, read through
/// `WindowFlags::bits`. Trusted: the contract claims that this word is 2, the
/// value that imgui-sys declares for `ImGuiWindowFlags_NoResize`.
#[verifier::external_body]
fn no_resize_mask() -> (r: u32)
    ensures
        r == WINDOW_NO_RESIZE,
{
    imgui::WindowFlags::NO_RESIZE.bits()
}

/// The word of `imgui::WindowFlags::NO_COLLAPSE`, read through
/// `WindowFlags::bits`. Trusted: the contract claims that this word is 32, the
/// value that imgui-sys declares for `ImGuiWindowFlags_NoCollapse`.
#[verifier::external_body]
fn no_collapse_mask() -> (r: u32)
    ensures
        r == WINDOW_NO_COLLAPSE,
{
    imgui::WindowFlags::NO_COLLAPSE.bits()
}

/// What the renderer is given for one frame.
#[derive(Debug, Clone, Copy, PartialEq, Eq, Structural)]
pub struct DisplayRequest {
    pub window_flags: u32,
    pub min_size: Size,
    pub max_size: Size,
}

/// The patterns of the bounds that `display_simple` asks for: 200 by 300 and
/// 700 by 500 pixels.
pub const SIMPLE_MIN_WIDTH: u32 = 0x4348_0000;

pub const SIMPLE_MIN_HEIGHT: u32 = 0x4396_0000;

pub const SIMPLE_MAX_WIDTH: u32 = 0x442f_0000;

pub const SIMPLE_MAX_HEIGHT: u32 = 0x43fa_0000;

/// Whether the largest size does not exceed the smallest on either axis.
pub open spec fn is_fixed(min_size: Size, max_size: Size) -> bool {
    max_size.width.le(min_size.width) && max_size.height.le(min_size.height)
}

/// The request for a window that was asked for with `flags` and the two
/// bounds: a window without room to resize gets the no-resize flag, and the
/// largest size is raised to the smallest where it lies below.
pub open spec fn fitted(flags: u32, min_size: Size, max_size: Size) -> DisplayRequest {
    DisplayRequest {
        window_flags: if is_fixed(min_size, max_size) {
            flags | WINDOW_NO_RESIZE
        } else {
            flags
        },
        min_size,
        max_size: Size {
            width: max_size.width.larger(min_size.width),
            height: max_size.height.larger(min_size.height),
        },
    }
}

/// The request of `display_simple`: no collapsing, between 200 by 300 and
/// 700 by 500 pixels.
pub open spec fn simple_request() -> DisplayRequest {
    DisplayRequest {
        window_flags: WINDOW_NO_COLLAPSE,
        min_size: Size { width: Scalar(SIMPLE_MIN_WIDTH), height: Scalar(SIMPLE_MIN_HEIGHT) },
        max_size: Size { width: Scalar(SIMPLE_MAX_WIDTH), height: Scalar(SIMPLE_MAX_HEIGHT) },
    }
}

/// Fits the flags and bounds of one frame.
pub fn fit_window(flags: u32, min_size: Size, max_size: Size) -> (r: DisplayRequest)
    ensures
        r == fitted(flags, min_size, max_size),
{
    let fixed = max_size.width.le(min_size.width) && max_size.height.le(min_size.height);
    let window_flags = if fixed {
        flags | no_resize_mask()
    } else {
        flags
    };
    let width = max_size.width.larger(min_size.width);
    let height = max_size.height.larger(min_size.height);
    DisplayRequest { window_flags, min_size, max_size: Size { width, height } }
}

/// The flags and bounds that `display_simple` asks for.
pub fn simple_window() -> (r: DisplayRequest)
    ensures
        r == simple_request(),
        r == fitted(WINDOW_NO_COLLAPSE, simple_request().min_size, simple_request().max_size),
{
    fit_window(
        no_collapse_mask(),
        Size { width: Scalar(SIMPLE_MIN_WIDTH), height: Scalar(SIMPLE_MIN_HEIGHT) },
        Size { width: Scalar(SIMPLE_MAX_WIDTH), height: Scalar(SIMPLE_MAX_HEIGHT) },
    )
}

/// A fitted request keeps every flag that was asked for and forbids
/// resizing where the bounds leave no room; where the smallest size is a
/// number, the largest size handed on is not below it, and it is as large as
/// the smallest where the bounds leave no room.
pub proof fn law_fitted_bounds(flags: u32, min_size: Size, max_size: Size)
    ensures
        fitted(flags, min_size, max_size).min_size == min_size,
        !min_size.width.is_nan() ==> min_size.width.le(fitted(flags, min_size, max_size).max_size.width),
        !min_size.height.is_nan() ==> min_size.height.le(
            fitted(flags, min_size, max_size).max_size.height,
        ),
        fitted(flags, min_size, max_size).window_flags & flags == flags,
        is_fixed(min_size, max_size) ==> fitted(flags, min_size, max_size).window_flags
            & WINDOW_NO_RESIZE == WINDOW_NO_RESIZE,
        is_fixed(min_size, max_size) ==> fitted(flags, min_size, max_size).max_size.width.rank()
            == min_size.width.rank() && fitted(flags, min_size, max_size).max_size.height.rank()
            == min_size.height.rank(),
{
    assert((flags | 2u32) & flags == flags && (flags | 2u32) & 2u32 == 2u32 && flags & flags
        == flags) by (bit_vector);
}

} // verus!
