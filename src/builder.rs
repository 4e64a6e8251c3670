use vstd::prelude::*;

use crate::backend::{candidate_order, candidates, start, Backend, Fallback};

verus! {

/// The window handle of raw-window-handle, carried through unread.
#[verifier::external_type_specification]
#[verifier::external_body]
pub struct ExRawWindowHandle(raw_window_handle::RawWindowHandle);

/// The settings that a display is built from.
///
/// By default transparency is requested, the software rasterizer is not
/// forced, and no window is given.
pub struct DisplayBuilder {
    window: Option<raw_window_handle::RawWindowHandle>,
    transparent: bool,
    force_swrast: bool,
}

impl Default for DisplayBuilder {
    fn default() -> (r: Self)
        ensures
            r.window_spec() is None,
            r.transparent_spec(),
            !r.force_swrast_spec(),
    {
        DisplayBuilder { window: None, transparent: true, force_swrast: false }
    }
}

impl DisplayBuilder {
    /// The window given to bootstrap the GL context, if any.
    pub closed spec fn window_spec(&self) -> Option<raw_window_handle::RawWindowHandle> {
        self.window
    }

    /// Whether transparent surfaces are requested.
    pub closed spec fn transparent_spec(&self) -> bool {
        self.transparent
    }

    /// Whether the software rasterizer is forced.
    pub closed spec fn force_swrast_spec(&self) -> bool {
        self.force_swrast
    }

    /// A builder with the default settings.
    pub fn new() -> (r: Self)
        ensures
            r.window_spec() is None,
            r.transparent_spec(),
            !r.force_swrast_spec(),
    {
        DisplayBuilder { window: None, transparent: true, force_swrast: false }
    }

    /// Gives the window that bootstraps the GL context on platforms that
    /// need one.
    pub fn window(self, window: raw_window_handle::RawWindowHandle) -> (r: Self)
        ensures
            r.window_spec() == Some(window),
            r.transparent_spec() == self.transparent_spec(),
            r.force_swrast_spec() == self.force_swrast_spec(),
    {
        DisplayBuilder { window: Some(window), ..self }
    }

    /// Sets whether transparent surfaces are requested.
    pub fn transparent(self, transparent: bool) -> (r: Self)
        ensures
            r.window_spec() == self.window_spec(),
            r.transparent_spec() == transparent,
            r.force_swrast_spec() == self.force_swrast_spec(),
    {
        DisplayBuilder { transparent, ..self }
    }

    /// Sets whether the software rasterizer is used whatever else is
    /// available.
    pub fn force_swrast(self, force_swrast: bool) -> (r: Self)
        ensures
            r.window_spec() == self.window_spec(),
            r.transparent_spec() == self.transparent_spec(),
            r.force_swrast_spec() == force_swrast,
    {
        DisplayBuilder { force_swrast, ..self }
    }

    /// The window given to bootstrap the GL context, if any.
    pub fn window_handle(&self) -> (r: Option<raw_window_handle::RawWindowHandle>)
        ensures
            r == self.window_spec(),
    {
        self.window
    }

    /// Whether transparent surfaces are requested.
    pub fn is_transparent(&self) -> (r: bool)
        ensures
            r == self.transparent_spec(),
    {
        self.transparent
    }

    /// Whether the software rasterizer is forced.
    pub fn forces_swrast(&self) -> (r: bool)
        ensures
            r == self.force_swrast_spec(),
    {
        self.force_swrast
    }

    /// The fallback that builds a display: it tries the backends of
    /// `registry` that these settings admit, in order.
    pub fn selector<E>(&self, registry: &Vec<Backend>) -> (r: Fallback<Backend, E>)
        ensures
            r.wf(),
            r.view() == start(candidates(registry@, self.force_swrast_spec())),
            r.last_error() is None,
    {
        Fallback::new(candidate_order(registry, self.force_swrast))
    }
}

} // verus!
