use vstd::prelude::*;

use image::codecs::png::PngDecoder;
use image::{DynamicImage, ImageError};
use std::io::Cursor;

use crate::timer::{Status, TimerState};
use crate::utils::{argb_of, rgba_into_argb};

verus! {

#[verifier::external_type_specification]
#[verifier::external_body]
pub struct ExImageError(ImageError);

/// An entry of the tray menu.
#[derive(Clone, Copy, Debug, PartialEq, Eq, Structural)]
pub enum TrayAction {
    StartTimer,
    StopTimer,
    Quit,
}

/// What the tray's handler must do after a menu entry was chosen.
#[derive(Clone, Copy, Debug, PartialEq, Eq, Structural)]
pub enum TrayEffect {
    /// Nothing beyond the change of state.
    Nothing,
    /// Release the waiter of the timer loop.
    ReleaseWaiter,
    /// Close the window and stop handling the tray.
    CloseWindow,
}

/// The desktop's colour scheme, as far as the tray icon cares.
#[derive(Clone, Copy, Debug, PartialEq, Eq, Structural)]
pub enum Theme {
    Dark,
    Light,
    Default,
}

/// The two variants of the tray icon.
#[derive(Clone, Copy, Debug, PartialEq, Eq, Structural)]
pub enum TrayIcon {
    Dark,
    Light,
}

/// A dark desktop gets the dark icon; a light one, or one that states no
/// preference, gets the light icon.
pub fn icon_for_theme(theme: Theme) -> (icon: TrayIcon)
    ensures
        icon == (if theme == Theme::Dark { TrayIcon::Dark } else { TrayIcon::Light }),
{
    match theme {
        Theme::Dark => TrayIcon::Dark,
        Theme::Light | Theme::Default => TrayIcon::Light,
    }
}

impl TimerState {
    /// The state after the tray entry `action` was chosen at time `now`.
    pub open spec fn after_tray(self, action: TrayAction, now: i64) -> TimerState {
        if self.quit_app {
            self
        } else {
            match action {
            TrayAction::StartTimer => if self.status == Status::Stopped || self.paused {
                self.started(now)
            } else {
                self
            },
            TrayAction::StopTimer => if self.status != Status::Stopped {
                self.stopped()
            } else {
                self
            },
            TrayAction::Quit => TimerState { quit_app: true, ..self },
            }
        }
    }

    /// What the tray's handler must do after the entry `action` was chosen.
    pub open spec fn tray_effect(self, action: TrayAction) -> TrayEffect {
        if self.quit_app {
            TrayEffect::Nothing
        } else {
            match action {
            TrayAction::StartTimer => if self.paused {
                TrayEffect::ReleaseWaiter
            } else {
                TrayEffect::Nothing
            },
            TrayAction::StopTimer => if self.status != Status::Stopped {
                TrayEffect::ReleaseWaiter
            } else {
                TrayEffect::Nothing
            },
            TrayAction::Quit => TrayEffect::CloseWindow,
            }
        }
    }

    /// Handles a tray menu entry chosen at time `now`: "Start timer" works
    /// like the start control, but only while the timer is stopped or
    /// paused; "Stop timer" works like the stop control, but only while the
    /// timer runs; "Quit" asks the application to quit and ends the handling
    /// of the tray, so that every entry chosen after it is ignored.
    pub fn tray_command(&mut self, action: TrayAction, now: i64) -> (effect: TrayEffect)
        ensures
            effect == old(self).tray_effect(action),
            *final(self) == old(self).after_tray(action, now),
    {
        if self.quit_app {
            return TrayEffect::Nothing;
        }
        match action {
            TrayAction::StartTimer => {
                if self.status == Status::Stopped || self.paused {
                    if self.start_timer(now) {
                        TrayEffect::ReleaseWaiter
                    } else {
                        TrayEffect::Nothing
                    }
                } else {
                    TrayEffect::Nothing
                }
            },
            TrayAction::StopTimer => {
                if self.status != Status::Stopped {
                    self.stop_timer();
                    TrayEffect::ReleaseWaiter
                } else {
                    TrayEffect::Nothing
                }
            },
            TrayAction::Quit => {
                self.quit_app = true;
                TrayEffect::CloseWindow
            },
        }
    }
}

/// Why the tray icon could not be prepared.
#[derive(Clone, Copy, Debug, PartialEq, Eq, Structural)]
pub enum IconError {
    /// The icon's bytes are not an image that the PNG decoder can read.
    Decode,
}

/// Whether the `image` crate's PNG decoder accepts `bytes` and decodes the
/// whole image; decoding reads nothing but the bytes, so this depends on
/// them alone.
pub uninterp spec fn png_decodes(bytes: Seq<u8>) -> bool;

/// The pixels, as 8-bit RGBA bytes, of the image that the `image` crate's
/// PNG decoder reads from `bytes`; decoding reads nothing but the bytes, so
/// they depend on them alone.
pub uninterp spec fn png_rgba8(bytes: Seq<u8>) -> Seq<u8>;

/// Decodes `bytes` as a PNG image with the `image` crate's PNG decoder,
/// without limits on memory (`PngDecoder::new`, then
/// `DynamicImage::from_decoder` for the whole image), and hands back the
/// image's pixels as 8-bit RGBA bytes (`into_rgba8`, then the buffer
/// itself).  Claimed: it succeeds exactly when `png_decodes` holds of the
/// bytes, and then returns `png_rgba8` of them.
#[verifier::external_body]
fn decode_png_rgba8(bytes: &[u8]) -> (r: Result<Vec<u8>, ImageError>)
    ensures
        r is Ok <==> png_decodes(bytes@),
        r matches Ok(v) ==> v@ == png_rgba8(bytes@),
{
    match PngDecoder::new(Cursor::new(bytes)) {
        Ok(decoder) => match DynamicImage::from_decoder(decoder) {
            Ok(img) => Ok(img.into_rgba8().into_vec()),
            Err(e) => Err(e),
        },
        Err(e) => Err(e),
    }
}

/// Turns the PNG bytes of a tray icon into the ARGB pixel bytes that the
/// tray expects: the image is decoded to 8-bit RGBA, and every pixel's
/// alpha byte is moved to the front.  It succeeds exactly when the PNG
/// decoder accepts the bytes, and fails with `IconError::Decode` otherwise.
pub fn tray_icon_data(png: &[u8]) -> (r: Result<Vec<u8>, IconError>)
    ensures
        r is Ok <==> png_decodes(png@),
        r is Err ==> r == Err::<Vec<u8>, IconError>(IconError::Decode),
        r matches Ok(v) ==> v@ == argb_of(png_rgba8(png@)),
{
    let rgba = match decode_png_rgba8(png) {
        Ok(pixels) => pixels,
        Err(_) => {
            return Err(IconError::Decode);
        },
    };
    Ok(rgba_into_argb(rgba))
}

} // verus!
