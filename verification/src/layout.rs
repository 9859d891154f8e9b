//! Measurement bookkeeping for the control that wraps a native widget.
//!
//! The host framework asks the control how large it wants to be, given the
//! parent's extent and the layout rules assigned to the control.  The native
//! toolkits differ only in where the answer is stored; the arithmetic is the
//! same everywhere: a hidden control measures zero, otherwise each dimension
//! follows its rule and the margins are added, clamped at zero and truncated
//! to the native 16-bit extent.

use vstd::prelude::*;

verus! {

/// The extent a dimension takes when its rule is to wrap the content: the
/// wrapped native engines report no intrinsic size, so a fixed fallback is
/// used.
pub const WRAP_CONTENT_EXTENT: u16 = 42;

/// Whether the control is shown, hidden but keeping its space, or gone from
/// the layout entirely.
#[derive(Clone, Copy, PartialEq, Eq, Structural, Debug)]
pub enum Visibility {
    /// Shown and laid out.
    Visible,
    /// Hidden, but still taking part in layout.
    Invisible,
    /// Removed from layout: the control measures zero.
    Gone,
}

/// The layout rule for one dimension of the control.
#[derive(Clone, Copy, PartialEq, Eq, Structural, Debug)]
pub enum SizeRule {
    /// Take the parent's extent.
    MatchParent,
    /// Take exactly the given extent.
    Exact(u16),
    /// Take the content's extent; see [`WRAP_CONTENT_EXTENT`].
    WrapContent,
}

/// The margins around the control, in native coordinates.  Negative margins
/// are allowed and shrink the measured extent.
#[derive(Clone, Copy, PartialEq, Eq, Structural, Debug)]
pub struct Margins {
    /// Margin before the control horizontally.
    pub left: i32,
    /// Margin above the control.
    pub top: i32,
    /// Margin after the control horizontally.
    pub right: i32,
    /// Margin below the control.
    pub bottom: i32,
}

impl Margins {
    /// Margins of zero on every side.
    pub fn none() -> (r: Margins)
        ensures
            r == (Margins { left: 0i32, top: 0i32, right: 0i32, bottom: 0i32 }),
    {
        Margins { left: 0, top: 0, right: 0, bottom: 0 }
    }
}

/// The layout state recorded for the control: its visibility, the rule for
/// each dimension, and the extent of the last measurement.
#[derive(Clone, Copy, PartialEq, Eq, Structural, Debug)]
pub struct ControlLayout {
    /// Whether the control takes part in layout.
    pub visibility: Visibility,
    /// Rule for the width.
    pub width: SizeRule,
    /// Rule for the height.
    pub height: SizeRule,
    /// Width recorded by the last measurement or resize.
    pub measured_w: u16,
    /// Height recorded by the last measurement or resize.
    pub measured_h: u16,
}

/// The extent one dimension resolves to before margins, by its rule.
pub open spec fn spec_resolved(rule: SizeRule, parent: u16) -> u16 {
    match rule {
        SizeRule::MatchParent => parent,
        SizeRule::Exact(v) => v,
        SizeRule::WrapContent => WRAP_CONTENT_EXTENT,
    }
}

/// A dimension with its two margins added: clamped at zero, then truncated
/// to the 16-bit extent the native side records.
pub open spec fn spec_padded(base: u16, lead: i32, trail: i32) -> u16 {
    let total = base as int + lead as int + trail as int;
    if total <= 0 {
        0u16
    } else {
        (total % 0x10000) as u16
    }
}

/// What one measurement records: zero for a control that is gone, otherwise
/// each dimension by its rule with its margins.
pub open spec fn spec_measure(c: ControlLayout, m: Margins, parent_w: u16, parent_h: u16) -> (
    u16,
    u16,
) {
    match c.visibility {
        Visibility::Gone => (0u16, 0u16),
        _ => (
            spec_padded(spec_resolved(c.width, parent_w), m.left, m.right),
            spec_padded(spec_resolved(c.height, parent_h), m.top, m.bottom),
        ),
    }
}

/// Resolves one dimension by its rule.
fn resolved(rule: SizeRule, parent: u16) -> (r: u16)
    ensures
        r == spec_resolved(rule, parent),
{
    match rule {
        SizeRule::MatchParent => parent,
        SizeRule::Exact(v) => v,
        SizeRule::WrapContent => WRAP_CONTENT_EXTENT,
    }
}

/// Adds the margins of one dimension, clamping at zero and truncating to the
/// native 16-bit extent.
fn padded(base: u16, lead: i32, trail: i32) -> (r: u16)
    ensures
        r == spec_padded(base, lead, trail),
{
    let total: i64 = base as i64 + lead as i64 + trail as i64;
    if total <= 0 {
        0
    } else {
        let rem: i64 = total % 0x10000;
        rem as u16
    }
}

impl ControlLayout {
    /// A freshly created control: visible, matching its parent in both
    /// dimensions, nothing measured yet.
    pub fn new() -> (r: ControlLayout)
        ensures
            r == (ControlLayout {
                visibility: Visibility::Visible,
                width: SizeRule::MatchParent,
                height: SizeRule::MatchParent,
                measured_w: 0u16,
                measured_h: 0u16,
            }),
    {
        ControlLayout {
            visibility: Visibility::Visible,
            width: SizeRule::MatchParent,
            height: SizeRule::MatchParent,
            measured_w: 0,
            measured_h: 0,
        }
    }

    /// Measures the control against the parent's extent, records the result,
    /// and reports the measured width, the measured height, and whether the
    /// recorded extent changed.
    pub fn measure(&mut self, margins: Margins, parent_w: u16, parent_h: u16) -> (r: (
        u16,
        u16,
        bool,
    ))
        ensures
            (final(self).measured_w, final(self).measured_h) == spec_measure(
                *old(self),
                margins,
                parent_w,
                parent_h,
            ),
            final(self).visibility == old(self).visibility,
            final(self).width == old(self).width,
            final(self).height == old(self).height,
            r.0 == final(self).measured_w,
            r.1 == final(self).measured_h,
            r.2 == (final(self).measured_w != old(self).measured_w || final(self).measured_h
                != old(self).measured_h),
    {
        let old_w = self.measured_w;
        let old_h = self.measured_h;
        let (w, h): (u16, u16) = match self.visibility {
            Visibility::Gone => (0, 0),
            _ => (
                padded(resolved(self.width, parent_w), margins.left, margins.right),
                padded(resolved(self.height, parent_h), margins.top, margins.bottom),
            ),
        };
        self.measured_w = w;
        self.measured_h = h;
        (w, h, w != old_w || h != old_h)
    }
}

} // verus!
