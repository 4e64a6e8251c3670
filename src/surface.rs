use vstd::prelude::*;

use crate::error::Error;

verus! {

/// Checks the size of a surface or a session: neither side may be zero.
pub fn validate_size(width: u32, height: u32) -> (r: Result<(), Error>)
    ensures
        r == (if width == 0 || height == 0 {
            Err::<(), Error>(Error::InvalidInput)
        } else {
            Ok::<(), Error>(())
        }),
{
    if width == 0 || height == 0 {
        Err(Error::InvalidInput)
    } else {
        Ok(())
    }
}

/// What the GPU-API backend reads of a texture format that a surface offers.
#[derive(Clone, Copy, Debug, PartialEq, Eq, Structural)]
pub enum FormatKind {
    /// 8-bit RGBA, normalised.
    Rgba8Unorm,
    /// 8-bit BGRA, normalised.
    Bgra8Unorm,
    /// Any other format.
    Other,
}

/// What the GPU-API backend reads of a compositing alpha mode that a surface
/// offers.
#[derive(Clone, Copy, Debug, PartialEq, Eq, Structural)]
pub enum AlphaKind {
    /// Chosen by the platform.
    Auto,
    /// Alpha ignored.
    Opaque,
    /// Colours premultiplied by alpha.
    PreMultiplied,
    /// Colours not premultiplied by alpha.
    PostMultiplied,
    /// Set by the windowing system.
    Inherit,
}

/// Whether the backend prefers format `f`.
pub open spec fn preferred_format(f: FormatKind) -> bool {
    f == FormatKind::Rgba8Unorm || f == FormatKind::Bgra8Unorm
}

/// Whether alpha mode `m` suits a display that does or does not want
/// transparency.
pub open spec fn suitable_alpha(m: AlphaKind, transparent: bool) -> bool {
    !transparent || m == AlphaKind::PostMultiplied || m == AlphaKind::Inherit
}

/// The position of the format to configure a surface with: the first
/// preferred one, else the first one; `None` when none is offered.
pub fn choose_format(formats: &Vec<FormatKind>) -> (r: Option<usize>)
    ensures
        r is None <==> formats@.len() == 0,
        r matches Some(i) ==> i < formats@.len() && (if exists|k: int|
            0 <= k < formats@.len() && preferred_format(#[trigger] formats@[k]) {
            preferred_format(formats@[i as int]) && forall|k: int|
                0 <= k < i ==> !preferred_format(#[trigger] formats@[k])
        } else {
            i == 0
        }),
{
    let mut i: usize = 0;
    while i < formats.len()
        invariant
            i <= formats@.len(),
            forall|k: int| 0 <= k < i ==> !preferred_format(#[trigger] formats@[k]),
        decreases formats.len() - i,
    {
        let f = formats[i];
        if f == FormatKind::Rgba8Unorm || f == FormatKind::Bgra8Unorm {
            return Some(i);
        }
        i = i + 1;
    }
    if formats.len() == 0 {
        None
    } else {
        Some(0)
    }
}

/// The position of the alpha mode to configure a surface with: the first
/// suitable one, else the first one; `None` when none is offered.
pub fn choose_alpha_mode(modes: &Vec<AlphaKind>, transparent: bool) -> (r: Option<usize>)
    ensures
        r is None <==> modes@.len() == 0,
        r matches Some(i) ==> i < modes@.len() && (if exists|k: int|
            0 <= k < modes@.len() && suitable_alpha(#[trigger] modes@[k], transparent) {
            suitable_alpha(modes@[i as int], transparent) && forall|k: int|
                0 <= k < i ==> !suitable_alpha(#[trigger] modes@[k], transparent)
        } else {
            i == 0
        }),
{
    let mut i: usize = 0;
    while i < modes.len()
        invariant
            i <= modes@.len(),
            forall|k: int| 0 <= k < i ==> !suitable_alpha(#[trigger] modes@[k], transparent),
        decreases modes.len() - i,
    {
        let m = modes[i];
        if !transparent || m == AlphaKind::PostMultiplied || m == AlphaKind::Inherit {
            return Some(i);
        }
        i = i + 1;
    }
    if modes.len() == 0 {
        None
    } else {
        Some(0)
    }
}

/// The position of the first known adapter that supports a new surface;
/// `None` when none does and a new adapter must be requested.
pub fn find_adapter(supports: &Vec<bool>) -> (r: Option<usize>)
    ensures
        r is None <==> forall|k: int| 0 <= k < supports@.len() ==> !#[trigger] supports@[k],
        r matches Some(i) ==> i < supports@.len() && supports@[i as int] && forall|k: int|
            0 <= k < i ==> !#[trigger] supports@[k],
{
    let mut i: usize = 0;
    while i < supports.len()
        invariant
            i <= supports@.len(),
            forall|k: int| 0 <= k < i ==> !#[trigger] supports@[k],
        decreases supports.len() - i,
    {
        if supports[i] {
            return Some(i);
        }
        i = i + 1;
    }
    None
}

} // verus!
