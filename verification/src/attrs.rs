//! Names of the native attributes and the sentinel values used on the
//! boolean string path.

use vstd::prelude::*;

verus! {

/// An attribute name addressed on a native handle.
///
/// The native toolkit identifies every widget property by a fixed name; this
/// enum is the closed set of names the wrapper uses, one variant per name.
#[derive(Clone, Copy, PartialEq, Eq, Structural, Debug)]
pub enum Attr {
    /// Title text of a dialog, label or button.
    Title,
    /// Current value of a text box or progress bar.
    Value,
    /// Enabled state of a widget.
    Active,
    /// User-visible name, used to find a child inside a dialog.
    Name,
    /// Visibility state of a widget.
    Visible,
    /// Rendered size of a widget in pixels.
    RasterSize,
    /// Position of a widget relative to its parent.
    Position,
    /// Vertical alignment of children in a container.
    AlignmentVert,
    /// Horizontal alignment of children in a container.
    AlignmentHori,
    /// Fill orientation of a grid or progress bar.
    Orientation,
    /// Number of children per row or column in a grid.
    NumDiv,
    /// Whether a text box accepts newline characters.
    Multiline,
    /// Rendered width of a text box in columns.
    VisibleColumns,
    /// Rendered height of a text box in lines.
    VisibleLines,
    /// Dashed rendering of a progress bar.
    Dashed,
    /// Indefinite (looping) rendering of a progress bar.
    Marquee,
    /// Timer interval in milliseconds.
    Time,
    /// Running state of a timer.
    Run,
    /// Spacing between children of a container in pixels.
    Gap,
    /// Handle of the image attached to a widget.
    Image,
    /// Callback slot: activation (click) of a button.
    Action,
    /// Callback slot: timer interval elapsed.
    ActionCb,
    /// Callback slot: user changed the value of a widget.
    ValueChangedCb,
    /// Callback slot: widget was shown.
    MapCb,
    /// Horizontal coordinate of a child inside an absolute container.
    Cx,
    /// Vertical coordinate of a child inside an absolute container.
    Cy,
}

/// The sentinel string the boolean path writes for `false`; the native
/// close path writes it into a dialog's visibility slot.
pub fn no_value() -> (r: &'static str)
    ensures
        r@ == "NO"@,
{
    "NO"
}

/// Map a boolean to the sentinel string the native toolkit stores for it.
pub fn bool_yes_no(b: bool) -> (r: &'static str)
    ensures
        b ==> r@ == "YES"@,
        !b ==> r@ == "NO"@,
{
    if b {
        "YES"
    } else {
        "NO"
    }
}

} // verus!
