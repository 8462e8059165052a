use cce_fx::config::TilingMode;
use cce_fx::inspector::Inspector;
use cce_fx::ipc::{get_ipc_socket_path, reply_timeout_ms, request_command, timeout_reply};
use cce_fx::window_management::{
    apply_toplevel_request, floating_state, CceWindowManagement, FullscreenRequest,
    MaximizeRequest, ToplevelRequest, WindowModeState,
};

fn tiled() -> WindowModeState {
    WindowModeState {
        tiling_mode: TilingMode::Tiled,
        mode_locked: false,
        maximize_requested: MaximizeRequest::NoRequest,
        fullscreen_requested: FullscreenRequest::NoRequest,
        minimize_requested: false,
    }
}

#[test]
fn toplevel_requests_change_the_window_mode() {
    let mut s = tiled();
    assert_eq!(apply_toplevel_request(&mut s, ToplevelRequest::SetFloating), Some(1));
    assert_eq!((s.tiling_mode, s.mode_locked), (TilingMode::Floating, true));
    assert_eq!(apply_toplevel_request(&mut s, ToplevelRequest::UnsetFloating), Some(0));
    assert_eq!((s.tiling_mode, s.mode_locked), (TilingMode::Floating, false));
    assert_eq!(apply_toplevel_request(&mut s, ToplevelRequest::SetMaximized), None);
    assert_eq!(s.tiling_mode, TilingMode::Cascade);
    assert_eq!(s.maximize_requested, MaximizeRequest::Maximize);
    assert!(s.mode_locked);
    assert_eq!(apply_toplevel_request(&mut s, ToplevelRequest::UnsetMaximized), None);
    assert_eq!(s.maximize_requested, MaximizeRequest::Unmaximize);
    assert!(!s.mode_locked);
    apply_toplevel_request(&mut s, ToplevelRequest::SetFullscreen);
    assert_eq!(s.fullscreen_requested, FullscreenRequest::Fullscreen);
    apply_toplevel_request(&mut s, ToplevelRequest::UnsetFullscreen);
    assert_eq!(s.fullscreen_requested, FullscreenRequest::Exit);
    apply_toplevel_request(&mut s, ToplevelRequest::SetMinimized);
    assert!(s.minimize_requested);
    assert_eq!(floating_state(TilingMode::Floating), 1);
    assert_eq!(floating_state(TilingMode::Overlay), 0);
}

#[test]
fn toplevel_objects_are_kept_in_order() {
    let mut m = CceWindowManagement::new();
    m.add_toplevel(5);
    m.add_toplevel(2);
    assert_eq!(m.toplevels, vec![5, 2]);
}

#[test]
fn inspector_states_read_back() {
    let mut i = Inspector::new();
    assert_eq!(i.state_for(1), "{}");
    i.register_client(1);
    assert_eq!(i.state_for(1), "");
    i.update_state(1, "{\"open\":true}".to_string());
    i.register_client(1);
    assert_eq!(i.state_for(1), "{\"open\":true}", "registering again keeps the state");
    i.add_resource(10);
    i.add_resource(11);
    i.add_resource(10);
    i.remove_resource(10);
    assert_eq!(i.resources, vec![11]);
}

#[test]
fn control_socket_requests() {
    assert_eq!(get_ipc_socket_path(Some("wayland-1")), "/tmp/cce-wayland-1.sock");
    assert_eq!(get_ipc_socket_path(None), "/tmp/cce.sock");
    assert_eq!(request_command(b"  layout tiled\n"), Some("layout tiled".to_string()));
    assert_eq!(request_command(b" \n\t"), None);
    assert_eq!(request_command(b"x\xff"), Some("x\u{fffd}".to_string()));
    assert_eq!(reply_timeout_ms("screenshot /tmp/a.png"), 5000);
    assert_eq!(reply_timeout_ms("reload"), 1000);
    assert_eq!(timeout_reply(), "error: timeout processing command\n");
}
