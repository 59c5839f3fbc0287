//! The foreign calls, as values: what is to be handed to the SDK, and what
//! its reply means.

use crate::error::LcdError;
use vstd::prelude::*;

verus! {

/// A set of buttons, one bit for each button as the SDK numbers them.
#[derive(Debug, Clone, Copy, PartialEq, Eq, Structural)]
pub struct Buttons {
    /// The bits of the buttons in the set.
    pub bits: u32,
}

impl Buttons {
    /// The set with the given bits.
    pub fn from_bits(bits: u32) -> (buttons: Buttons)
        ensures
            buttons.bits == bits,
    {
        Buttons { bits }
    }

    /// The bits of the set.
    pub fn bits(&self) -> (bits: u32)
        ensures
            bits == self.bits,
    {
        self.bits
    }
}

/// A call into the SDK that is ready to be made.  Text is in wire form;
/// pixel data is borrowed from the caller.
#[derive(Debug, PartialEq, Eq)]
pub enum Call<'a> {
    /// `LogiLcdInit` with the applet's name and the capability mask.
    Init { app_name: Vec<u16>, type_flags: u32 },
    /// `LogiLcdIsConnected` with the capability mask.
    IsConnected { type_flags: u32 },
    /// `LogiLcdIsButtonPressed` with the bits of the buttons asked for.
    IsButtonPressed { buttons: u32 },
    /// `LogiLcdUpdate`.
    Update,
    /// `LogiLcdShutdown`.
    Shutdown,
    /// `LogiLcdMonoSetBackground` with one byte for each pixel.
    MonoSetBackground { bytemap: &'a [u8] },
    /// `LogiLcdMonoSetText` with the line and its text.
    MonoSetText { line_number: usize, text: Vec<u16> },
    /// `LogiLcdColorSetBackground` with the bytes of the pixels.
    ColorSetBackground { bitmap: &'a [u8] },
    /// `LogiLcdColorSetTitle` with the text and its color.
    ColorSetTitle { text: Vec<u16>, red: u8, green: u8, blue: u8 },
    /// `LogiLcdColorSetText` with the line, its text and its color.
    ColorSetText { line_number: usize, text: Vec<u16>, red: u8, green: u8, blue: u8 },
}

/// What a [`Call`] holds, as mathematical values.
pub enum CallView {
    Init { app_name: Seq<u16>, type_flags: u32 },
    IsConnected { type_flags: u32 },
    IsButtonPressed { buttons: u32 },
    Update,
    Shutdown,
    MonoSetBackground { bytemap: Seq<u8> },
    MonoSetText { line_number: usize, text: Seq<u16> },
    ColorSetBackground { bitmap: Seq<u8> },
    ColorSetTitle { text: Seq<u16>, red: u8, green: u8, blue: u8 },
    ColorSetText { line_number: usize, text: Seq<u16>, red: u8, green: u8, blue: u8 },
}

impl<'a> View for Call<'a> {
    type V = CallView;

    open spec fn view(&self) -> CallView {
        match *self {
            Call::Init { app_name, type_flags } => CallView::Init {
                app_name: app_name@,
                type_flags,
            },
            Call::IsConnected { type_flags } => CallView::IsConnected { type_flags },
            Call::IsButtonPressed { buttons } => CallView::IsButtonPressed { buttons },
            Call::Update => CallView::Update,
            Call::Shutdown => CallView::Shutdown,
            Call::MonoSetBackground { bytemap } => CallView::MonoSetBackground {
                bytemap: bytemap@,
            },
            Call::MonoSetText { line_number, text } => CallView::MonoSetText {
                line_number,
                text: text@,
            },
            Call::ColorSetBackground { bitmap } => CallView::ColorSetBackground {
                bitmap: bitmap@,
            },
            Call::ColorSetTitle { text, red, green, blue } => CallView::ColorSetTitle {
                text: text@,
                red,
                green,
                blue,
            },
            Call::ColorSetText { line_number, text, red, green, blue } => CallView::ColorSetText {
                line_number,
                text: text@,
                red,
                green,
                blue,
            },
        }
    }
}

impl CallView {
    /// The failure that the reply `false` to this call means.  The queries
    /// answer with their reply, and the calls without a reply cannot be
    /// seen to fail: for those there is none.
    pub open spec fn failure(self) -> Option<LcdError> {
        match self {
            CallView::Init { .. } => Some(LcdError::Initialization),
            CallView::IsConnected { .. } => None,
            CallView::IsButtonPressed { .. } => None,
            CallView::Update => None,
            CallView::Shutdown => None,
            CallView::MonoSetBackground { .. } => Some(LcdError::MonoBackground),
            CallView::MonoSetText { .. } => Some(LcdError::MonoText),
            CallView::ColorSetBackground { .. } => Some(LcdError::ColorBackground),
            CallView::ColorSetTitle { .. } => Some(LcdError::ColorTitle),
            CallView::ColorSetText { .. } => Some(LcdError::ColorText),
        }
    }

    /// What the reply to this call comes to: success if the SDK accepted the
    /// call or the call has no failure, the call's own failure otherwise.
    pub open spec fn outcome(self, accepted: bool) -> Result<(), LcdError> {
        if accepted || self.failure() is None {
            Ok(())
        } else {
            Err(self.failure()->Some_0)
        }
    }
}

/// A reply of `true` is success, whatever the call.  A reply of `false` is
/// the call's own failure where it has one, and each of the six drawing
/// calls and the initialization has one.
pub proof fn lemma_outcome(call: CallView)
    ensures
        call.outcome(true) == Ok::<(), LcdError>(()),
        call.failure() is Some ==> call.outcome(false) == Err::<(), LcdError>(
            call.failure()->Some_0,
        ),
        call.failure() is None <==> call is IsConnected || call is IsButtonPressed
            || call is Update || call is Shutdown,
{
}

impl<'a> Call<'a> {
    /// The failure that the reply `false` to this call means, if it means
    /// one.
    pub fn failure(&self) -> (failure: Option<LcdError>)
        ensures
            failure == self@.failure(),
    {
        match self {
            Call::Init { .. } => Some(LcdError::Initialization),
            Call::IsConnected { .. } => None,
            Call::IsButtonPressed { .. } => None,
            Call::Update => None,
            Call::Shutdown => None,
            Call::MonoSetBackground { .. } => Some(LcdError::MonoBackground),
            Call::MonoSetText { .. } => Some(LcdError::MonoText),
            Call::ColorSetBackground { .. } => Some(LcdError::ColorBackground),
            Call::ColorSetTitle { .. } => Some(LcdError::ColorTitle),
            Call::ColorSetText { .. } => Some(LcdError::ColorText),
        }
    }

    /// Turns the SDK's reply to this call into the operation's result.
    pub fn outcome(&self, accepted: bool) -> (result: Result<(), LcdError>)
        ensures
            result == self@.outcome(accepted),
    {
        if accepted {
            Ok(())
        } else {
            match self.failure() {
                Some(failure) => Err(failure),
                None => Ok(()),
            }
        }
    }
}

} // verus!
