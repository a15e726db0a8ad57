//! The overlay sidecar's gRPC front: the ports its servers listen on and the
//! decisions behind its requests.

use vstd::prelude::*;
use crate::dashboard::{Dashboard, DashboardView};
use crate::mic::{MicMuteIndicator, set_mic_active};
use crate::text::{decimal, push_decimal, is_numeral, numeral_value, lemma_decimal_reads_back};

verus! {

/// The core's gRPC port in development.
pub const CORE_GRPC_DEV_PORT: u16 = 5176;

/// The overlay sidecar's gRPC port in development.
pub const OVERLAY_SIDECAR_GRPC_DEV_PORT: u16 = 5174;

/// The overlay sidecar's gRPC-web port in development.
pub const OVERLAY_SIDECAR_GRPC_WEB_DEV_PORT: u16 = 5175;

/// `portpicker::pick_unused_port`: a port that was free on both TCP and UDP when it
/// was tried, or `None` when none was found. A port is either drawn at random from
/// 15000 to 24999 or the one the operating system bound a socket to, so it is never
/// 0; which port comes back depends on the machine's sockets and on chance.
#[verifier::external_body]
fn pick_unused_port() -> (port: Option<u16>)
    ensures
        port matches Some(p) ==> p != 0,
{
    portpicker::pick_unused_port()
}

/// The port a server listens on, given the port `picked` as free: the fixed
/// development port when the sidecar runs without a core (`core_pid` is 0),
/// otherwise the picked one (`None` when none was found).
pub fn port_from(core_pid: u32, dev_port: u16, picked: Option<u16>) -> (port: Option<u16>)
    ensures
        port == (if core_pid == 0 { Some(dev_port) } else { picked }),
{
    if core_pid == 0 {
        Some(dev_port)
    } else {
        picked
    }
}

/// The port a server listens on: the fixed development port when the sidecar runs
/// without a core (`core_pid` is 0), otherwise a free port picked at random, never 0
/// (`None` when none could be found).
pub fn listen_port(core_pid: u32, dev_port: u16) -> (port: Option<u16>)
    ensures
        core_pid == 0 ==> port == Some(dev_port),
        core_pid != 0 ==> (port matches Some(p) ==> p != 0),
{
    if core_pid == 0 {
        port_from(core_pid, dev_port, None)
    } else {
        let picked: Option<u16> = pick_unused_port();
        port_from(core_pid, dev_port, picked)
    }
}

/// The port of the gRPC server.
pub fn grpc_server_port(core_pid: u32) -> (port: Option<u16>)
    ensures
        core_pid == 0 ==> port == Some(OVERLAY_SIDECAR_GRPC_DEV_PORT),
        core_pid != 0 ==> (port matches Some(p) ==> p != 0),
{
    listen_port(core_pid, OVERLAY_SIDECAR_GRPC_DEV_PORT)
}

/// The port of the gRPC-web server.
pub fn grpc_web_server_port(core_pid: u32) -> (port: Option<u16>)
    ensures
        core_pid == 0 ==> port == Some(OVERLAY_SIDECAR_GRPC_WEB_DEV_PORT),
        core_pid != 0 ==> (port matches Some(p) ==> p != 0),
{
    listen_port(core_pid, OVERLAY_SIDECAR_GRPC_WEB_DEV_PORT)
}

/// The loopback address of a server on `port`.
pub open spec fn listen_address_spec(port: u16) -> Seq<char> {
    "127.0.0.1:"@ + decimal(port as nat)
}

/// The loopback address of a server on `port`, as the socket address parser takes it.
pub fn listen_address(port: u16) -> (addr: String)
    ensures
        addr@ == listen_address_spec(port),
{
    let mut addr = String::new();
    addr.append("127.0.0.1:");
    push_decimal(&mut addr, port as u64);
    addr
}

/// What a request to change the dashboard asks of the overlay.
#[derive(PartialEq, Eq, Structural)]
pub enum MenuAction {
    /// Nothing: the overlay runtime is not ready.
    Nothing,
    /// Make the dashboard overlay visible and play the page's show animation.
    Show,
    /// Move the dashboard overlay in front of the headset (anchored to the head),
    /// then show it as `Show` does.
    PlaceInFrontOfHeadAndShow,
    /// Play the page's hide animation, then hide the overlay.
    Hide,
}

/// The microphone activity that a request reports: voice is taken from the hardware
/// detection mode (0) only; any other mode reports no activity.
pub open spec fn reported_activity(mode: i32, active: bool) -> bool {
    mode == 0 && active
}

/// The overlay sidecar's gRPC service.
#[derive(Debug, Default, Clone)]
pub struct GrpcServer {}

impl GrpcServer {
    /// A new service.
    pub fn new() -> (s: GrpcServer) {
        GrpcServer {}
    }

    /// Opens the dashboard in front of the headset when the overlay runtime is ready
    /// (`xr_ready`).
    pub fn open_overlay_menu(&self, dashboard: &mut Dashboard, xr_ready: bool) -> (action: MenuAction)
        ensures
            xr_ready ==> action == MenuAction::PlaceInFrontOfHeadAndShow && final(dashboard)@ == old(dashboard)@.shown(),
            !xr_ready ==> action == MenuAction::Nothing && final(dashboard)@ == old(dashboard)@,
    {
        if xr_ready {
            dashboard.show_dashboard();
            MenuAction::PlaceInFrontOfHeadAndShow
        } else {
            MenuAction::Nothing
        }
    }

    /// Closes the dashboard.
    pub fn close_overlay_menu(&self, dashboard: &mut Dashboard) -> (action: MenuAction)
        ensures
            action == MenuAction::Hide,
            final(dashboard)@ == old(dashboard)@.hidden(),
    {
        dashboard.hide_dashboard();
        MenuAction::Hide
    }

    /// Hides a shown dashboard and shows a hidden one.
    pub fn toggle_overlay_menu(&self, dashboard: &mut Dashboard) -> (action: MenuAction)
        ensures
            action == (if old(dashboard)@.visible { MenuAction::Hide } else { MenuAction::Show }),
            final(dashboard)@ == old(dashboard)@.toggled(),
    {
        if dashboard.is_visible() {
            dashboard.hide_dashboard();
            MenuAction::Hide
        } else {
            dashboard.show_dashboard();
            MenuAction::Show
        }
    }

    /// Passes the microphone activity of a request (detection `mode`, `active`) to the
    /// indicator, at `now`.
    pub fn set_microphone_active(&self, indicator: &mut Option<MicMuteIndicator>, mode: i32, active: bool, now: u64)
        ensures
            match *old(indicator) {
                Some(m) => *final(indicator) matches Some(n) && n@ == m@.set_active_spec(reported_activity(mode, active), now),
                None => *final(indicator) is None,
            },
    {
        if mode == 0 {
            set_mic_active(indicator, active, now);
        } else {
            set_mic_active(indicator, false, now);
        }
    }
}

/// Toggling the dashboard flips its visibility and asks for the matching animation,
/// and toggling it twice brings it back as it was.
pub proof fn lemma_toggle_twice(v: DashboardView)
    ensures
        v.toggled().visible == !v.visible,
        v.toggled().toggled() == v,
{
}

/// A server's address names the port it was given: it reads `127.0.0.1:` and then
/// the digits of `port`, for every port.
pub proof fn lemma_listen_address_names_port(port: u16)
    ensures
        exists|digits: Seq<char>|
            listen_address_spec(port) == "127.0.0.1:"@ + digits && is_numeral(digits)
            && #[trigger] numeral_value(digits) == port,
{
    lemma_decimal_reads_back(port as nat);
    assert(listen_address_spec(port) == "127.0.0.1:"@ + decimal(port as nat));
}

} // verus!
