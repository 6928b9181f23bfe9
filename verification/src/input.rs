//! Portable input values read by the interaction helpers: controls, edges,
//! pointer samples and runtime-issued intent tokens.

use vstd::prelude::*;

verus! {

/// A physical mouse button supported by the portable input layer.
#[derive(Debug, Clone, Copy, PartialEq, Eq, Hash, Structural)]
pub enum MouseButton {
    /// The primary button.
    Left,
    /// The secondary button.
    Right,
    /// The middle button or wheel click.
    Middle,
}

/// A physical keyboard key supported by the portable input layer.
#[derive(Debug, Clone, Copy, PartialEq, Eq, Hash, Structural)]
pub enum PhysicalKeyCode {
    KeyW,
    KeyA,
    KeyS,
    KeyD,
    Enter,
    Space,
    ArrowLeft,
    ArrowRight,
    ArrowDown,
    ArrowUp,
    Escape,
    KeyP,
    KeyR,
    KeyN,
    Digit1,
    Digit2,
    Digit3,
    Digit4,
    Digit5,
    F3,
    F4,
    F5,
    F6,
    F8,
    F9,
    KeyL,
    KeyF,
    KeyM,
    KeyT,
    KeyV,
    Digit6,
    Digit7,
    Digit8,
    Digit9,
    F7,
    KeyE,
    ShiftLeft,
}

/// The physical control that produced one action edge.
#[derive(Debug, Clone, Copy, PartialEq, Eq, Hash, Structural)]
pub enum InputControl {
    /// A keyboard key.
    Key(PhysicalKeyCode),
    /// A mouse button.
    MouseButton(MouseButton),
}

/// Whether a control became held or was let go.
#[derive(Debug, Clone, Copy, PartialEq, Eq, Hash, Structural)]
pub enum ButtonState {
    /// The control became held.
    Pressed,
    /// The control was let go.
    Released,
}

/// Why the input runtime cancelled a held control instead of releasing it.
#[derive(Debug, Clone, Copy, PartialEq, Eq, Hash, Structural)]
pub enum InputCancellationReason {
    /// The window lost keyboard and pointer focus.
    FocusLost,
    /// The pointer left the window or changed capture ownership.
    PointerLeft,
}

/// An opaque, runtime-issued token naming one input occurrence.
#[derive(Debug, Clone, Copy, PartialEq, Eq, Hash, Structural)]
pub struct TransitionIntentToken {
    value: u64,
}

impl TransitionIntentToken {
    /// The raw occurrence number carried by the token.
    pub closed spec fn spec_value(self) -> u64 {
        self.value
    }

    /// Wraps an occurrence number issued by the input runtime.
    pub fn from_raw(value: u64) -> (token: Self)
        ensures
            token.spec_value() == value,
    {
        TransitionIntentToken { value }
    }

    /// Returns the raw occurrence number.
    pub fn raw(self) -> (r: u64)
        ensures
            r == self.spec_value(),
    {
        self.value
    }
}

/// An immutable event-time pointer sample in logical screen pixels.
///
/// Coordinates are kept as the exact IEEE-754 bit patterns of the logical
/// `f32` position, so a sample can be copied and compared bit for bit; the
/// routing logic reads only whether the sample lay inside the viewport.
#[derive(Debug, Clone, Copy, PartialEq, Eq, Hash, Structural)]
pub struct PointerSample {
    x_bits: u32,
    y_bits: u32,
    inside_viewport: bool,
}

impl PointerSample {
    /// Bit pattern of the logical horizontal coordinate.
    pub closed spec fn spec_x_bits(self) -> u32 {
        self.x_bits
    }

    /// Bit pattern of the logical vertical coordinate.
    pub closed spec fn spec_y_bits(self) -> u32 {
        self.y_bits
    }

    /// Whether the sample lay inside the logical viewport when it was taken.
    pub closed spec fn spec_inside_viewport(self) -> bool {
        self.inside_viewport
    }

    /// Records one sample from its coordinate bits and viewport membership.
    pub fn from_bits(x_bits: u32, y_bits: u32, inside_viewport: bool) -> (sample: Self)
        ensures
            sample.spec_x_bits() == x_bits,
            sample.spec_y_bits() == y_bits,
            sample.spec_inside_viewport() == inside_viewport,
    {
        PointerSample { x_bits, y_bits, inside_viewport }
    }

    /// Returns the bit pattern of the logical horizontal coordinate.
    pub fn x_bits(self) -> (r: u32)
        ensures
            r == self.spec_x_bits(),
    {
        self.x_bits
    }

    /// Returns the bit pattern of the logical vertical coordinate.
    pub fn y_bits(self) -> (r: u32)
        ensures
            r == self.spec_y_bits(),
    {
        self.y_bits
    }

    /// Reports whether the sample lay inside the logical viewport.
    pub fn is_inside_viewport(self) -> (r: bool)
        ensures
            r == self.spec_inside_viewport(),
    {
        self.inside_viewport
    }
}

/// One ordered edge of an application action, as delivered in a frame.
#[derive(Debug, Clone, Copy, PartialEq, Eq)]
pub struct ActionEdge<A> {
    /// The application action bound to the control.
    pub action: A,
    /// The physical control that changed.
    pub control: InputControl,
    /// Whether the control was pressed or let go.
    pub state: ButtonState,
    /// The event-time pointer sample, if the pointer position was known.
    pub pointer: Option<PointerSample>,
    /// The runtime-issued token of this occurrence.
    pub intent: TransitionIntentToken,
    /// Present when the runtime cancelled the hold instead of releasing it.
    pub cancellation: Option<InputCancellationReason>,
}

impl<A: Copy> ActionEdge<A> {
    /// Returns the physical control that changed.
    pub fn control(&self) -> (r: InputControl)
        ensures
            r == self.control,
    {
        self.control
    }

    /// Returns whether the control was pressed or let go.
    pub fn state(&self) -> (r: ButtonState)
        ensures
            r == self.state,
    {
        self.state
    }

    /// Returns the event-time pointer sample, if known.
    pub fn pointer(&self) -> (r: Option<PointerSample>)
        ensures
            r == self.pointer,
    {
        self.pointer
    }

    /// Returns the occurrence's runtime-issued token.
    pub fn intent(&self) -> (r: TransitionIntentToken)
        ensures
            r == self.intent,
    {
        self.intent
    }

    /// Returns the cancellation reason of a cancelled hold.
    pub fn cancellation_reason(&self) -> (r: Option<InputCancellationReason>)
        ensures
            r == self.cancellation,
    {
        self.cancellation
    }
}

} // verus!
