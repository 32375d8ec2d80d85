use cave::gui::{api_supported, CaveGui, GuiError, ParentHandleKind, WindowApi};
use cave::ports::{audio_port_count, get_size, note_port_count, GUI_HEIGHT, GUI_WIDTH};

#[test]
fn open_before_set_parent_is_a_configuration_error() {
    let mut g = CaveGui::new();
    assert_eq!(g.open(), Err(GuiError::ConfigurationError));
    assert!(!g.is_open());
    assert_eq!(g.parent, None, "state stays NoParent");
}

#[test]
fn default_controller_starts_with_no_parent() {
    let g = CaveGui::default();
    assert!(!g.is_open());
    assert_eq!(g.parent, None);
}

#[test]
fn close_is_idempotent_and_total() {
    // close with no prior open never fails and stays NoParent
    let mut g = CaveGui::new();
    g.close();
    assert!(!g.is_open());
    assert_eq!(g.parent, None);

    // close twice in a row after an open lands and stays in Closed
    let mut h = CaveGui::new();
    assert_eq!(h.set_parent(ParentHandleKind::Xlib), Ok(true));
    assert!(h.is_open());
    h.close();
    h.close();
    assert!(!h.is_open());
    assert_eq!(h.parent, Some(ParentHandleKind::Xlib));
}

#[test]
fn open_while_open_is_a_noop() {
    let mut g = CaveGui::new();
    assert_eq!(g.set_parent(ParentHandleKind::Xcb), Ok(true));
    assert!(g.is_open());
    // no second surface: the result tells the glue to create nothing
    assert_eq!(g.open(), Ok(false));
    assert!(g.is_open());
}

#[test]
fn wayland_parent_is_rejected_explicitly() {
    let mut g = CaveGui::new();
    assert_eq!(
        g.set_parent(ParentHandleKind::Wayland),
        Err(GuiError::UnsupportedHandleError)
    );
    assert!(!g.is_open(), "no surface must be reported when none was created");
    assert_eq!(g.parent, Some(ParentHandleKind::Wayland), "the handle is still recorded");
}

#[test]
fn unknown_handle_kind_is_rejected() {
    let mut g = CaveGui::new();
    assert_eq!(
        g.set_parent(ParentHandleKind::Other),
        Err(GuiError::UnsupportedHandleError)
    );
    assert!(!g.is_open());
}

#[test]
fn set_parent_while_open_records_without_reopening() {
    let mut g = CaveGui::new();
    assert_eq!(g.set_parent(ParentHandleKind::Xlib), Ok(true));
    assert_eq!(g.set_parent(ParentHandleKind::Xcb), Ok(false));
    assert!(g.is_open());
    assert_eq!(g.parent, Some(ParentHandleKind::Xcb));
}

#[test]
fn show_opens_and_then_is_a_noop() {
    let mut g = CaveGui::new();
    assert_eq!(g.show(), Err(GuiError::ConfigurationError));
    assert_eq!(g.set_parent(ParentHandleKind::Xlib), Ok(true));
    g.close();
    assert_eq!(g.show(), Ok(true));
    assert_eq!(g.show(), Ok(false));
    assert!(g.is_open());
}

#[test]
fn destroy_releases_the_surface() {
    let mut g = CaveGui::new();
    assert_eq!(g.set_parent(ParentHandleKind::Xlib), Ok(true));
    g.destroy();
    assert!(!g.is_open());
    // destroy is safe from the NoParent state too
    let mut fresh = CaveGui::new();
    fresh.destroy();
    assert!(!fresh.is_open());
}

#[test]
fn only_the_preferred_embedded_api_is_supported() {
    assert!(api_supported(WindowApi::X11, WindowApi::X11, false));
    assert!(!api_supported(WindowApi::X11, WindowApi::X11, true), "floating is never supported");
    assert!(!api_supported(WindowApi::X11, WindowApi::Wayland, false));
    assert!(api_supported(WindowApi::Cocoa, WindowApi::Cocoa, false));
    assert!(!api_supported(WindowApi::Win32, WindowApi::OtherApi, false));
}

#[test]
fn fixed_ports_and_editor_size() {
    assert_eq!(note_port_count(true), 1);
    assert_eq!(note_port_count(false), 0);
    assert_eq!(audio_port_count(true), 0);
    assert_eq!(audio_port_count(false), 1);
    assert_eq!(get_size(), (400, 300));
    assert_eq!((GUI_WIDTH, GUI_HEIGHT), (400, 300));
}
