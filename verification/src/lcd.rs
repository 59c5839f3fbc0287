//! Sessions: how one is started, what a live one can ask of the SDK, and
//! how it ends.
//!
//! A session of kind `T` goes through three stages.  [`Starting`] waits for
//! the SDK's reply to `LogiLcdInit`, [`Connecting`] for its reply to
//! `LogiLcdIsConnected`, and [`Lcd`] is the live handle.  The claim on the
//! SDK is held from the first stage on, and given back as soon as a stage
//! fails or the handle is shut down.

use crate::call::{Buttons, Call, CallView};
use crate::error::LcdError;
use crate::guard::Guard;
use crate::marker::{flags_of, LcdColor, LcdMono, LcdType, LcdTypeBoth, LcdTypeColor, LcdTypeMono};
use crate::sdk::{
    color_background_bytes, color_button_mask, lcd_type_color, lcd_type_either, lcd_type_mono,
    mono_background_bytes, mono_button_mask, COLOR_BUTTONS, MONO_BUTTONS,
};
use crate::wire::{has_nul, str_to_wchar, wire_form};
use std::marker::PhantomData;
use vstd::prelude::*;

verus! {

/// The number of text lines on a panel.
pub const TEXT_LINES: usize = 4;

/// A result without its value: what is left of a stage's result when only
/// success or the kind of failure counts.
pub open spec fn verdict<V>(r: Result<V, LcdError>) -> Result<(), LcdError> {
    match r {
        Ok(_) => Ok(()),
        Err(e) => Err(e),
    }
}

/// What starting a session comes to, given the SDK's replies: `accepted` to
/// `LogiLcdInit` and `present` to `LogiLcdIsConnected`.
pub open spec fn init_verdict(accepted: bool, present: bool) -> Result<(), LcdError> {
    if !accepted {
        Err(LcdError::Initialization)
    } else if !present {
        Err(LcdError::NotConnected)
    } else {
        Ok(())
    }
}

/// A session is live exactly if the SDK accepted the initialization and then
/// reported a device; otherwise the first reply that was `false` names the
/// failure.
pub proof fn lemma_init_verdict(accepted: bool, present: bool)
    ensures
        init_verdict(accepted, present) is Ok <==> accepted && present,
        !accepted ==> init_verdict(accepted, present) == Err::<(), LcdError>(
            LcdError::Initialization,
        ),
        accepted && !present ==> init_verdict(accepted, present) == Err::<(), LcdError>(
            LcdError::NotConnected,
        ),
{
}

/// A session that waits for the SDK's reply to `LogiLcdInit`.
pub struct Starting<T: LcdType> {
    app_name: Vec<u16>,
    type_flags: u32,
    type_data: PhantomData<T>,
}

/// A session that waits for the SDK's reply to `LogiLcdIsConnected`.
pub struct Connecting<T: LcdType> {
    type_flags: u32,
    type_data: PhantomData<T>,
}

/// A live session of kind `T`.  The capability mask it holds is always the
/// mask of `T`.
pub struct Lcd<T: LcdType> {
    type_flags: u32,
    type_data: PhantomData<T>,
}

/// Claims the SDK and prepares its initialization for sessions of kind `T`.
fn init<T: LcdType>(guard: &mut Guard, app_name: &str, type_flags: u32) -> (r: Result<
    Starting<T>,
    LcdError,
>)
    requires
        !old(guard).claimed(),
        type_flags == flags_of::<T>(),
    ensures
        final(guard).claimed() == r is Ok,
        has_nul(app_name@) ==> r is Err && r->Err_0 == LcdError::NullCharacter,
        !has_nul(app_name@) ==> r is Ok && r->Ok_0.app_name() == wire_form(app_name@),
{
    guard.claim();
    match str_to_wchar(app_name) {
        Ok(ws) => Ok(Starting { app_name: ws, type_flags, type_data: PhantomData }),
        Err(e) => {
            guard.release();
            Err(e)
        },
    }
}

/// Starts a session for a monochrome device, under the applet's name.
///
/// The guard must be free: only one session can exist at a time.  The guard
/// is claimed while the session starts and lives.  A name that holds U+0000
/// is refused, and the guard stays free.
pub fn init_mono(guard: &mut Guard, app_name: &str) -> (r: Result<Starting<LcdTypeMono>, LcdError>)
    requires
        !old(guard).claimed(),
    ensures
        final(guard).claimed() == r is Ok,
        has_nul(app_name@) ==> r is Err && r->Err_0 == LcdError::NullCharacter,
        !has_nul(app_name@) ==> r is Ok && r->Ok_0.app_name() == wire_form(app_name@),
{
    let type_flags: u32 = lcd_type_mono();
    assert(1u32 | 0u32 == 1u32) by (bit_vector);
    init(guard, app_name, type_flags)
}

/// Starts a session for a color device, under the applet's name.
///
/// The guard must be free: only one session can exist at a time.  The guard
/// is claimed while the session starts and lives.  A name that holds U+0000
/// is refused, and the guard stays free.
pub fn init_color(guard: &mut Guard, app_name: &str) -> (r: Result<
    Starting<LcdTypeColor>,
    LcdError,
>)
    requires
        !old(guard).claimed(),
    ensures
        final(guard).claimed() == r is Ok,
        has_nul(app_name@) ==> r is Err && r->Err_0 == LcdError::NullCharacter,
        !has_nul(app_name@) ==> r is Ok && r->Ok_0.app_name() == wire_form(app_name@),
{
    let type_flags: u32 = lcd_type_color();
    assert(0u32 | 2u32 == 2u32) by (bit_vector);
    init(guard, app_name, type_flags)
}

/// Starts a session for whichever device is attached, monochrome or color,
/// under the applet's name.
///
/// The guard must be free: only one session can exist at a time.  The guard
/// is claimed while the session starts and lives.  A name that holds U+0000
/// is refused, and the guard stays free.
pub fn init_either(guard: &mut Guard, app_name: &str) -> (r: Result<
    Starting<LcdTypeBoth>,
    LcdError,
>)
    requires
        !old(guard).claimed(),
    ensures
        final(guard).claimed() == r is Ok,
        has_nul(app_name@) ==> r is Err && r->Err_0 == LcdError::NullCharacter,
        !has_nul(app_name@) ==> r is Ok && r->Ok_0.app_name() == wire_form(app_name@),
{
    let type_flags: u32 = lcd_type_either();
    init(guard, app_name, type_flags)
}

impl<T: LcdType> Starting<T> {
    #[verifier::type_invariant]
    spec fn flags_agree(self) -> bool {
        self.type_flags == flags_of::<T>()
    }

    /// The applet's name in wire form.
    pub closed spec fn app_name(self) -> Seq<u16> {
        self.app_name@
    }

    /// The call to make now: `LogiLcdInit` with the applet's name and the
    /// mask of `T`.
    pub fn call(&self) -> (call: Call<'static>)
        ensures
            call@ == (CallView::Init { app_name: self.app_name(), type_flags: flags_of::<T>() }),
    {
        proof {
            use_type_invariant(self);
        }
        Call::Init { app_name: self.app_name.clone(), type_flags: self.type_flags }
    }

    /// Takes the SDK's reply to `LogiLcdInit`.  If the SDK accepted, the
    /// session goes on to ask for a device; if not, the claim is given back.
    pub fn initialized(self, guard: &mut Guard, accepted: bool) -> (r: Result<
        Connecting<T>,
        LcdError,
    >)
        ensures
            verdict(r) == init_verdict(accepted, true),
            final(guard).claimed() == (old(guard).claimed() && accepted),
    {
        proof {
            use_type_invariant(&self);
        }
        if accepted {
            Ok(Connecting { type_flags: self.type_flags, type_data: PhantomData })
        } else {
            guard.release();
            Err(LcdError::Initialization)
        }
    }
}

impl<T: LcdType> Connecting<T> {
    #[verifier::type_invariant]
    spec fn flags_agree(self) -> bool {
        self.type_flags == flags_of::<T>()
    }

    /// The call to make now: `LogiLcdIsConnected` with the mask of `T`.
    pub fn call(&self) -> (call: Call<'static>)
        ensures
            call@ == (CallView::IsConnected { type_flags: flags_of::<T>() }),
    {
        proof {
            use_type_invariant(self);
        }
        Call::IsConnected { type_flags: self.type_flags }
    }

    /// Takes the SDK's reply to `LogiLcdIsConnected`.  If a device is
    /// present, the session is live; if not, the claim is given back.
    pub fn connected(self, guard: &mut Guard, present: bool) -> (r: Result<Lcd<T>, LcdError>)
        ensures
            verdict(r) == init_verdict(true, present),
            final(guard).claimed() == (old(guard).claimed() && present),
    {
        proof {
            use_type_invariant(&self);
        }
        if present {
            Ok(Lcd { type_flags: self.type_flags, type_data: PhantomData })
        } else {
            guard.release();
            Err(LcdError::NotConnected)
        }
    }
}

impl<T: LcdType> Lcd<T> {
    #[verifier::type_invariant]
    spec fn flags_agree(self) -> bool {
        self.type_flags == flags_of::<T>()
    }

    /// The capability mask that the session was started with: always the
    /// mask of its kind.
    pub fn type_flags(&self) -> (flags: u32)
        ensures
            flags == flags_of::<T>(),
    {
        proof {
            use_type_invariant(self);
        }
        self.type_flags
    }

    /// Asks whether a device of the session's kind is connected.  The SDK's
    /// reply is the answer.
    pub fn is_connected(&self) -> (call: Call<'static>)
        ensures
            call@ == (CallView::IsConnected { type_flags: flags_of::<T>() }),
    {
        proof {
            use_type_invariant(self);
        }
        Call::IsConnected { type_flags: self.type_flags }
    }

    /// Pushes what was drawn to the display.  To be done once in every
    /// frame; the SDK gives no reply.
    pub fn update(&mut self) -> (call: Call<'static>)
        ensures
            call@ == CallView::Update,
            *final(self) == *old(self),
    {
        Call::Update
    }

    /// Ends the session and gives the claim back.  The SDK gives no reply.
    pub fn shutdown(self, guard: &mut Guard) -> (call: Call<'static>)
        ensures
            call@ == CallView::Shutdown,
            !final(guard).claimed(),
    {
        guard.release();
        Call::Shutdown
    }
}

impl<T: LcdType + LcdMono> Lcd<T> {
    /// Asks whether one of the given buttons is pressed.  Only the buttons
    /// of a monochrome device are asked for.  The SDK's reply is the answer;
    /// it is `true` only while the applet is in the foreground.
    pub fn is_mono_buttons_pressed(&self, buttons: Buttons) -> (call: Call<'static>)
        ensures
            call@ == (CallView::IsButtonPressed { buttons: buttons.bits & MONO_BUTTONS }),
    {
        Call::IsButtonPressed { buttons: buttons.bits() & mono_button_mask() }
    }

    /// Sets the background of the monochrome panel: one byte for each of its
    /// 160 by 43 pixels, row after row.  A pixel is lit where its byte is
    /// 128 or more.
    pub fn set_mono_background<'a>(&mut self, bytemap: &'a [u8]) -> (call: Call<'a>)
        requires
            bytemap@.len() == mono_background_bytes(),
        ensures
            call@ == (CallView::MonoSetBackground { bytemap: bytemap@ }),
            *final(self) == *old(self),
    {
        Call::MonoSetBackground { bytemap }
    }

    /// Sets the text of a line of the monochrome panel.  The line is one of
    /// the panel's four; a text that holds U+0000 is refused before the line
    /// is looked at.
    pub fn set_mono_text(&mut self, line_number: usize, text: &str) -> (r: Result<
        Call<'static>,
        LcdError,
    >)
        requires
            line_number < TEXT_LINES || has_nul(text@),
        ensures
            has_nul(text@) ==> r is Err && r->Err_0 == LcdError::NullCharacter,
            !has_nul(text@) ==> r is Ok && r->Ok_0@ == (CallView::MonoSetText {
                line_number,
                text: wire_form(text@),
            }),
            *final(self) == *old(self),
    {
        match str_to_wchar(text) {
            Ok(ws) => Ok(Call::MonoSetText { line_number, text: ws }),
            Err(e) => Err(e),
        }
    }
}

impl<T: LcdType + LcdColor> Lcd<T> {
    /// Asks whether one of the given buttons is pressed.  Only the buttons
    /// of a color device are asked for.  The SDK's reply is the answer; it
    /// is `true` only while the applet is in the foreground.
    pub fn is_color_buttons_pressed(&self, buttons: Buttons) -> (call: Call<'static>)
        ensures
            call@ == (CallView::IsButtonPressed { buttons: buttons.bits & COLOR_BUTTONS }),
    {
        Call::IsButtonPressed { buttons: buttons.bits() & color_button_mask() }
    }

    /// Sets the background of the color panel: four bytes for each of its
    /// 320 by 240 pixels, row after row.
    pub fn set_color_background<'a>(&mut self, bitmap: &'a [u8]) -> (call: Call<'a>)
        requires
            bitmap@.len() == color_background_bytes(),
        ensures
            call@ == (CallView::ColorSetBackground { bitmap: bitmap@ }),
            *final(self) == *old(self),
    {
        Call::ColorSetBackground { bitmap }
    }

    /// Sets the title of the color panel, in the given color.  A text that
    /// holds U+0000 is refused.
    pub fn set_color_title(&mut self, text: &str, red: u8, green: u8, blue: u8) -> (r: Result<
        Call<'static>,
        LcdError,
    >)
        ensures
            has_nul(text@) ==> r is Err && r->Err_0 == LcdError::NullCharacter,
            !has_nul(text@) ==> r is Ok && r->Ok_0@ == (CallView::ColorSetTitle {
                text: wire_form(text@),
                red,
                green,
                blue,
            }),
            *final(self) == *old(self),
    {
        match str_to_wchar(text) {
            Ok(ws) => Ok(Call::ColorSetTitle { text: ws, red, green, blue }),
            Err(e) => Err(e),
        }
    }

    /// Sets the text of a line of the color panel, in the given color.  The
    /// line is one of the panel's four; a text that holds U+0000 is refused
    /// before the line is looked at.
    pub fn set_color_text(
        &mut self,
        line_number: usize,
        text: &str,
        red: u8,
        green: u8,
        blue: u8,
    ) -> (r: Result<Call<'static>, LcdError>)
        requires
            line_number < TEXT_LINES || has_nul(text@),
        ensures
            has_nul(text@) ==> r is Err && r->Err_0 == LcdError::NullCharacter,
            !has_nul(text@) ==> r is Ok && r->Ok_0@ == (CallView::ColorSetText {
                line_number,
                text: wire_form(text@),
                red,
                green,
                blue,
            }),
            *final(self) == *old(self),
    {
        match str_to_wchar(text) {
            Ok(ws) => Ok(Call::ColorSetText { line_number, text: ws, red, green, blue }),
            Err(e) => Err(e),
        }
    }
}

} // verus!
