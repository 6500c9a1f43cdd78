//! Values of the Flutter embedder API that the compositor's logic reads.
//! They are those of Flutter's `embedder.h`.
use vstd::prelude::*;

verus! {

/// `FlutterPointerPhase`: the pointer was released.
pub const FLUTTER_POINTER_PHASE_UP: u32 = 1;
/// `FlutterPointerPhase`: a button was pressed while none was.
pub const FLUTTER_POINTER_PHASE_DOWN: u32 = 2;
/// `FlutterPointerPhase`: the pointer moved, or a button changed, while a button is held.
pub const FLUTTER_POINTER_PHASE_MOVE: u32 = 3;
/// `FlutterPointerPhase`: the pointer moved while no button is held.
pub const FLUTTER_POINTER_PHASE_HOVER: u32 = 6;

/// `FlutterPointerSignalKind`: no signal.
pub const FLUTTER_POINTER_SIGNAL_KIND_NONE: u32 = 0;
/// `FlutterPointerSignalKind`: a scroll.
pub const FLUTTER_POINTER_SIGNAL_KIND_SCROLL: u32 = 1;

/// `FlutterPointerDeviceKind`: a mouse.
pub const FLUTTER_POINTER_DEVICE_KIND_MOUSE: u32 = 1;

/// `FlutterPointerMouseButtons`: the primary (left) button.
pub const FLUTTER_POINTER_BUTTON_MOUSE_PRIMARY: u32 = 1;
/// `FlutterPointerMouseButtons`: the secondary (right) button.
pub const FLUTTER_POINTER_BUTTON_MOUSE_SECONDARY: u32 = 2;
/// `FlutterPointerMouseButtons`: the middle button.
pub const FLUTTER_POINTER_BUTTON_MOUSE_MIDDLE: u32 = 4;
/// `FlutterPointerMouseButtons`: the back button.
pub const FLUTTER_POINTER_BUTTON_MOUSE_BACK: u32 = 8;
/// `FlutterPointerMouseButtons`: the forward button.
pub const FLUTTER_POINTER_BUTTON_MOUSE_FORWARD: u32 = 16;

} // verus!
