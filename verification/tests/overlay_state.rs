use oyasumi_sidecar::vr::{frame_step, FrameStep, PollOutcome, CACHE_PATH};
use oyasumi_sidecar::dashboard::{dashboard_url, Dashboard, Hand, OverlayEvent, PageAction};
use oyasumi_sidecar::grpc::{
    grpc_server_port, grpc_web_server_port, listen_address, listen_port, port_from, GrpcServer, MenuAction,
    OVERLAY_SIDECAR_GRPC_DEV_PORT, OVERLAY_SIDECAR_GRPC_WEB_DEV_PORT,
};
use oyasumi_sidecar::mic::{
    set_mic_active, IndicatorInput, IndicatorSettings, MicMuteIndicator, OpacityRule,
};

#[test]
fn dashboard_url_format() {
    assert_eq!(dashboard_url(5173, 5177), "http://localhost:5173/dashboard?corePort=5177");
    assert_eq!(dashboard_url(0, 65535), "http://localhost:0/dashboard?corePort=65535");
}

#[test]
fn splash_page_is_replaced_once() {
    let mut d = Dashboard::new();
    d.mark_splash_played();
    d.show_dashboard();
    assert!(d.is_visible());
    d.hide_dashboard();
    assert!(!d.is_visible());
    assert_eq!(d.finish_hide(1, 2), Some("http://localhost:1/dashboard?corePort=2".to_string()));
    assert_eq!(d.finish_hide(1, 2), None);
}

#[test]
fn overlay_events() {
    let mut d = Dashboard::new();
    assert!(d.openxr_callback(OverlayEvent::VisibilityChanged { visible: true }, 3) == PageAction::Show);
    assert!(d.openxr_callback(OverlayEvent::VisibilityChanged { visible: false }, 3) == PageAction::Nothing);
    assert!(d.openxr_callback(OverlayEvent::Hiding { frames_left: 4 }, 3) == PageAction::Hide);
    assert!(d.openxr_callback(OverlayEvent::ButtonsUpdated, 3) == PageAction::Nothing);
    assert!(d.openxr_show_hand() == Hand::Left);
    d.openxr_callback(OverlayEvent::VisibilityChangedLastInput { handle: 9, visible: true, last_input: Hand::Right }, 3);
    assert!(d.openxr_show_hand() == Hand::Left);
    d.openxr_callback(OverlayEvent::VisibilityChangedLastInput { handle: 3, visible: false, last_input: Hand::Right }, 3);
    assert!(d.openxr_show_hand() == Hand::Left);
    assert!(
        d.openxr_callback(OverlayEvent::VisibilityChangedLastInput { handle: 3, visible: true, last_input: Hand::Right }, 3)
            == PageAction::Nothing
    );
    assert!(d.openxr_show_hand() == Hand::Right);
}

#[test]
fn toggle_twice_restores() {
    let server = GrpcServer::new();
    let mut d = Dashboard::new();
    assert!(server.toggle_overlay_menu(&mut d) == MenuAction::Show);
    assert!(d.is_visible());
    assert!(server.toggle_overlay_menu(&mut d) == MenuAction::Hide);
    assert!(!d.is_visible());
}

#[test]
fn open_and_close_menu() {
    let server = GrpcServer::new();
    let mut d = Dashboard::new();
    assert!(server.open_overlay_menu(&mut d, false) == MenuAction::Nothing);
    assert!(!d.is_visible());
    assert!(server.open_overlay_menu(&mut d, true) == MenuAction::PlaceInFrontOfHeadAndShow);
    assert!(d.is_visible());
    assert!(server.close_overlay_menu(&mut d) == MenuAction::Hide);
    assert!(!d.is_visible());
}

#[test]
fn development_ports() {
    assert_eq!(grpc_server_port(0), Some(OVERLAY_SIDECAR_GRPC_DEV_PORT));
    assert_eq!(grpc_web_server_port(0), Some(OVERLAY_SIDECAR_GRPC_WEB_DEV_PORT));
    assert_eq!(OVERLAY_SIDECAR_GRPC_DEV_PORT, 5174);
    assert_eq!(OVERLAY_SIDECAR_GRPC_WEB_DEV_PORT, 5175);
    assert_eq!(listen_port(0, 1234), Some(1234));
}

#[test]
fn picked_port_is_usable() {
    if let Some(port) = grpc_server_port(4242) {
        assert_ne!(port, 0);
    }
    if let Some(port) = grpc_web_server_port(4242) {
        assert_ne!(port, 0);
    }
}

#[test]
fn port_from_picked() {
    assert_eq!(port_from(0, 5174, Some(20000)), Some(5174));
    assert_eq!(port_from(0, 5174, None), Some(5174));
    assert_eq!(port_from(12, 5174, Some(20000)), Some(20000));
    assert_eq!(port_from(12, 5174, None), None);
}

#[test]
fn listen_address_format() {
    assert_eq!(listen_address(5174), "127.0.0.1:5174");
    assert_eq!(listen_address(7), "127.0.0.1:7");
}

#[test]
fn mic_activity_stamps_changes_only() {
    let mut m = MicMuteIndicator::new(10);
    m.set_active(false, 20);
    assert_eq!(m.activity_scaling(50), None);
    m.sync(Some(IndicatorInput { system_mic_muted: false, settings: None }), 30);
    m.set_active(true, 40);
    m.set_active(true, 45);
    assert_eq!(m.activity_scaling(50), Some(10));
    assert_eq!(m.since_state_change(50), 20);
    assert_eq!(m.since_state_change(5), 0);
}

#[test]
fn set_mic_active_without_indicator() {
    let mut none: Option<MicMuteIndicator> = None;
    set_mic_active(&mut none, true, 5);
    assert!(none.is_none());
    let mut some = Some(MicMuteIndicator::new(0));
    set_mic_active(&mut some, true, 5);
    some.as_mut().unwrap().sync(Some(IndicatorInput { system_mic_muted: false, settings: None }), 6);
    assert!(some.as_ref().unwrap().opacity_rule(9) == OpacityRule::Full);
}

#[test]
fn grpc_mic_mode() {
    let server = GrpcServer::new();
    let mut ind = Some(MicMuteIndicator::new(0));
    ind.as_mut().unwrap().sync(Some(IndicatorInput { system_mic_muted: false, settings: None }), 1);
    server.set_microphone_active(&mut ind, 1, true, 2);
    assert!(ind.as_ref().unwrap().opacity_rule(3) == OpacityRule::Steady { dimmed: true });
    server.set_microphone_active(&mut ind, 0, true, 4);
    assert!(ind.as_ref().unwrap().opacity_rule(5) == OpacityRule::Full);
    assert_eq!(ind.as_ref().unwrap().activity_scaling(10), Some(6));
}

#[test]
fn indicator_sync_and_visibility() {
    let mut m = MicMuteIndicator::new(0);
    assert!(!m.is_enabled());
    let input = || IndicatorInput {
        system_mic_muted: true,
        settings: Some(IndicatorSettings { fade_out: true, enabled: true }),
    };
    assert_eq!(m.sync(Some(input()), 100), Some(true));
    assert!(m.is_enabled());
    assert_eq!(m.sync(Some(input()), 200), None);
    assert_eq!(m.sync(None, 300), None);
    assert!(m.opacity_rule(4000) == OpacityRule::Fade { quiet_ms: 4000, dimmed: false });
    m.set_active(true, 3000);
    assert!(m.opacity_rule(4000) == OpacityRule::Fade { quiet_ms: 1000, dimmed: false });
}

#[test]
fn image_redraw_follows_mute_state() {
    let mut m = MicMuteIndicator::new(0);
    assert!(m.image_outdated());
    assert!(m.record_image());
    assert!(!m.image_outdated());
    m.sync(Some(IndicatorInput { system_mic_muted: false, settings: None }), 1);
    assert!(m.image_outdated());
    assert!(!m.record_image());
    assert!(!m.image_outdated());
}

#[test]
fn frame_loop_steps() {
    assert!(frame_step(PollOutcome::Success, 11) == FrameStep::Continue);
    assert!(frame_step(PollOutcome::SuccessNoRender, 11) == FrameStep::Sleep { ms: 11 });
    assert!(frame_step(PollOutcome::UserNotPresent, 11) == FrameStep::Sleep { ms: 1000 });
    assert!(frame_step(PollOutcome::Starting, 11) == FrameStep::Continue);
    assert!(frame_step(PollOutcome::Exit, 11) == FrameStep::Stop);
    assert!(frame_step(PollOutcome::SessionLost, 11) == FrameStep::Stop);
    assert_eq!(CACHE_PATH, "/tmp/oyasumi_sidecard_cef");
}
