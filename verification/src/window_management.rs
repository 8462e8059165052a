use vstd::prelude::*;

use crate::config::TilingMode;

verus! {

/// The window-management protocol global: the toplevel objects handed out,
/// by handle.
pub struct CceWindowManagement {
    pub toplevels: Vec<u64>,
}

impl CceWindowManagement {
    pub fn new() -> (m: CceWindowManagement)
        ensures
            m.toplevels@.len() == 0,
    {
        CceWindowManagement { toplevels: Vec::new() }
    }

    /// A toplevel object was handed out.
    pub fn add_toplevel(&mut self, handle: u64)
        ensures
            final(self).toplevels@ == old(self).toplevels@.push(handle),
    {
        self.toplevels.push(handle);
    }
}

/// A pending maximize request of a window.
#[derive(Debug, Clone, Copy, PartialEq, Eq, Structural)]
pub enum MaximizeRequest {
    NoRequest,
    Maximize,
    Unmaximize,
}

/// A pending fullscreen request of a window.
#[derive(Debug, Clone, Copy, PartialEq, Eq, Structural)]
pub enum FullscreenRequest {
    NoRequest,
    Fullscreen,
    Exit,
}

/// What a client may change about its window's mode.
#[derive(Debug, Clone, Copy, PartialEq, Eq, Structural)]
pub struct WindowModeState {
    pub tiling_mode: TilingMode,
    /// The mode was set by the client and the window manager keeps it.
    pub mode_locked: bool,
    pub maximize_requested: MaximizeRequest,
    pub fullscreen_requested: FullscreenRequest,
    pub minimize_requested: bool,
}

/// A request on a window's toplevel object.
#[derive(Debug, Clone, Copy, PartialEq, Eq, Structural)]
pub enum ToplevelRequest {
    SetFloating,
    UnsetFloating,
    SetMaximized,
    UnsetMaximized,
    SetFullscreen,
    UnsetFullscreen,
    SetMinimized,
}

/// The `floating_state` event value for a window: 1 when floating.
pub fn floating_state(mode: TilingMode) -> (r: u32)
    ensures
        r == (if mode == TilingMode::Floating {
            1u32
        } else {
            0u32
        }),
{
    if mode == TilingMode::Floating {
        1
    } else {
        0
    }
}

pub open spec fn request_spec(s: WindowModeState, req: ToplevelRequest) -> (WindowModeState, Option<u32>) {
    match req {
        ToplevelRequest::SetFloating => (
            WindowModeState { tiling_mode: TilingMode::Floating, mode_locked: true, ..s },
            Some(1u32),
        ),
        ToplevelRequest::UnsetFloating => (WindowModeState { mode_locked: false, ..s }, Some(0u32)),
        ToplevelRequest::SetMaximized => (
            WindowModeState {
                tiling_mode: TilingMode::Cascade,
                mode_locked: true,
                maximize_requested: MaximizeRequest::Maximize,
                ..s
            },
            None,
        ),
        ToplevelRequest::UnsetMaximized => (
            WindowModeState {
                mode_locked: false,
                maximize_requested: MaximizeRequest::Unmaximize,
                ..s
            },
            None,
        ),
        ToplevelRequest::SetFullscreen => (
            WindowModeState { fullscreen_requested: FullscreenRequest::Fullscreen, ..s },
            None,
        ),
        ToplevelRequest::UnsetFullscreen => (
            WindowModeState { fullscreen_requested: FullscreenRequest::Exit, ..s },
            None,
        ),
        ToplevelRequest::SetMinimized => (WindowModeState { minimize_requested: true, ..s }, None),
    }
}

/// Applies a client's toplevel request to its window: floating locks the
/// window floating, maximizing locks it in the cascade mode and asks for a
/// maximize, unsetting either unlocks the mode; fullscreen and minimize
/// are asked of the window manager. Returns the `floating_state` event to
/// send back, if the request sends one.
pub fn apply_toplevel_request(s: &mut WindowModeState, req: ToplevelRequest) -> (event: Option<u32>)
    ensures
        (*final(s), event) == request_spec(*old(s), req),
{
    match req {
        ToplevelRequest::SetFloating => {
            s.tiling_mode = TilingMode::Floating;
            s.mode_locked = true;
            Some(1)
        },
        ToplevelRequest::UnsetFloating => {
            s.mode_locked = false;
            Some(0)
        },
        ToplevelRequest::SetMaximized => {
            s.tiling_mode = TilingMode::Cascade;
            s.mode_locked = true;
            s.maximize_requested = MaximizeRequest::Maximize;
            None
        },
        ToplevelRequest::UnsetMaximized => {
            s.mode_locked = false;
            s.maximize_requested = MaximizeRequest::Unmaximize;
            None
        },
        ToplevelRequest::SetFullscreen => {
            s.fullscreen_requested = FullscreenRequest::Fullscreen;
            None
        },
        ToplevelRequest::UnsetFullscreen => {
            s.fullscreen_requested = FullscreenRequest::Exit;
            None
        },
        ToplevelRequest::SetMinimized => {
            s.minimize_requested = true;
            None
        },
    }
}

/// Setting floating and unsetting it again leaves the window floating but
/// hands the mode back to the window manager; the events sent are 1, then 0.
pub proof fn lemma_float_unfloat(s: WindowModeState)
    ensures
        ({
            let (s1, e1) = request_spec(s, ToplevelRequest::SetFloating);
            let (s2, e2) = request_spec(s1, ToplevelRequest::UnsetFloating);
            &&& e1 == Some(1u32)
            &&& e2 == Some(0u32)
            &&& s2 == WindowModeState { tiling_mode: TilingMode::Floating, mode_locked: false, ..s }
        }),
{
}

} // verus!
