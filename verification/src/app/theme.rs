//! The colours of messages, in a light and in a dark window.

use vstd::prelude::*;

verus! {

/// A colour: one of the toolkit's own, or a mixture.
#[derive(Debug, Clone, Copy, PartialEq, Eq, Structural)]
pub enum ThemeColor {
    LightGreen,
    LightBlue,
    /// The toolkit's colour for warnings.
    WarnForeground,
    /// The toolkit's colour for errors.
    ErrorForeground,
    Rgb(u8, u8, u8),
}

/// What kind of message a text is.
#[derive(Debug, Clone, Copy, PartialEq, Eq, Structural)]
pub enum Tone {
    Success,
    Info,
    Warn,
    Error,
}

/// The colour of a success.
pub fn success(dark_mode: bool) -> (r: ThemeColor)
    ensures
        r == if dark_mode {
            ThemeColor::LightGreen
        } else {
            ThemeColor::Rgb(0x1a, 0x7f, 0x37)
        },
{
    if dark_mode {
        ThemeColor::LightGreen
    } else {
        ThemeColor::Rgb(0x1a, 0x7f, 0x37)
    }
}

/// The colour of an information.
pub fn info(dark_mode: bool) -> (r: ThemeColor)
    ensures
        r == if dark_mode {
            ThemeColor::LightBlue
        } else {
            ThemeColor::Rgb(0x0b, 0x5c, 0xad)
        },
{
    if dark_mode {
        ThemeColor::LightBlue
    } else {
        ThemeColor::Rgb(0x0b, 0x5c, 0xad)
    }
}

/// The colour of a warning. On a light window the toolkit's own is too pale to read.
pub fn warn(dark_mode: bool) -> (r: ThemeColor)
    ensures
        r == if dark_mode {
            ThemeColor::WarnForeground
        } else {
            ThemeColor::Rgb(0x9a, 0x67, 0x00)
        },
{
    if dark_mode {
        ThemeColor::WarnForeground
    } else {
        ThemeColor::Rgb(0x9a, 0x67, 0x00)
    }
}

/// The colour of an error. On a light window the toolkit's own is too pale to read.
pub fn error(dark_mode: bool) -> (r: ThemeColor)
    ensures
        r == if dark_mode {
            ThemeColor::ErrorForeground
        } else {
            ThemeColor::Rgb(0xcf, 0x22, 0x2e)
        },
{
    if dark_mode {
        ThemeColor::ErrorForeground
    } else {
        ThemeColor::Rgb(0xcf, 0x22, 0x2e)
    }
}

} // verus!
