//! The overlay's dashboard: whether it is shown, whether the splash screen still has
//! to give way to the dashboard page, which hand opened it last, and what the
//! overlay runtime's events ask of it.

use vstd::prelude::*;
use crate::text::{decimal, push_decimal, is_numeral, numeral_value, lemma_decimal_reads_back};

verus! {

/// A hand of the user.
#[derive(Clone, Copy, PartialEq, Eq, Structural)]
pub enum Hand {
    Left,
    Right,
}

/// The overlay runtime's events that the dashboard follows.
pub enum OverlayEvent {
    /// An overlay was shown or hidden.
    VisibilityChanged { visible: bool },
    /// An overlay is playing its hiding animation.
    Hiding { frames_left: u32 },
    /// An overlay was shown or hidden by the given hand's input.
    VisibilityChangedLastInput { handle: u64, visible: bool, last_input: Hand },
    /// Controller buttons changed.
    ButtonsUpdated,
    /// Any other event.
    Other,
}

/// What an event asks of the dashboard page.
#[derive(PartialEq, Eq, Structural)]
pub enum PageAction {
    /// Nothing.
    Nothing,
    /// Play the page's show animation.
    Show,
    /// Play the page's hide animation.
    Hide,
}

/// The dashboard's state.
pub struct Dashboard {
    visible: bool,
    splash_played: bool,
    switch_hand: Hand,
}

/// The dashboard's state as plain values.
pub struct DashboardView {
    pub visible: bool,
    pub splash_played: bool,
    pub switch_hand: Hand,
}

impl View for Dashboard {
    type V = DashboardView;

    closed spec fn view(&self) -> DashboardView {
        DashboardView { visible: self.visible, splash_played: self.splash_played, switch_hand: self.switch_hand }
    }
}

/// The address of the dashboard page served on `ui_port`, which talks to the core's
/// HTTP server on `http_port`.
pub open spec fn dashboard_url_spec(ui_port: u16, http_port: u16) -> Seq<char> {
    "http://localhost:"@ + decimal(ui_port as nat) + "/dashboard?corePort="@ + decimal(http_port as nat)
}

/// The address of the dashboard page served on `ui_port`, which talks to the core's
/// HTTP server on `http_port`.
pub fn dashboard_url(ui_port: u16, http_port: u16) -> (url: String)
    ensures
        url@ == dashboard_url_spec(ui_port, http_port),
{
    let mut url = String::new();
    url.append("http://localhost:");
    push_decimal(&mut url, ui_port as u64);
    url.append("/dashboard?corePort=");
    push_decimal(&mut url, http_port as u64);
    assert(url@ =~= dashboard_url_spec(ui_port, http_port));
    url
}

impl DashboardView {
    /// The state with the dashboard shown.
    pub open spec fn shown(self) -> DashboardView {
        DashboardView { visible: true, ..self }
    }

    /// The state with the dashboard hidden.
    pub open spec fn hidden(self) -> DashboardView {
        DashboardView { visible: false, ..self }
    }

    /// The state with the dashboard's visibility flipped.
    pub open spec fn toggled(self) -> DashboardView {
        DashboardView { visible: !self.visible, ..self }
    }

    /// The page action that `event` asks for; `main_overlay` is the dashboard's
    /// overlay handle.
    pub open spec fn event_action(self, event: OverlayEvent) -> PageAction {
        match event {
            OverlayEvent::VisibilityChanged { visible } => if visible { PageAction::Show } else { PageAction::Nothing },
            OverlayEvent::Hiding { .. } => PageAction::Hide,
            _ => PageAction::Nothing,
        }
    }

    /// The state after `event`: the dashboard remembers the hand that opened it.
    pub open spec fn after_event(self, event: OverlayEvent, main_overlay: u64) -> DashboardView {
        match event {
            OverlayEvent::VisibilityChangedLastInput { handle, visible, last_input } =>
                if visible && handle == main_overlay { DashboardView { switch_hand: last_input, ..self } } else { self },
            _ => self,
        }
    }
}

impl Dashboard {
    /// A hidden dashboard whose splash screen has not played, last opened by the left hand.
    pub fn new() -> (d: Dashboard)
        ensures
            d@ == (DashboardView { visible: false, splash_played: false, switch_hand: Hand::Left }),
    {
        Dashboard { visible: false, splash_played: false, switch_hand: Hand::Left }
    }

    /// Whether the dashboard is shown.
    pub fn is_visible(&self) -> (v: bool)
        ensures
            v == self@.visible,
    {
        self.visible
    }

    /// Records that the splash screen played, so that the next hide loads the dashboard page.
    pub fn mark_splash_played(&mut self)
        ensures
            final(self)@ == (DashboardView { splash_played: true, ..old(self)@ }),
    {
        self.splash_played = true;
    }

    /// Shows the dashboard; the caller makes its overlay visible and plays the page's
    /// show animation.
    pub fn show_dashboard(&mut self)
        ensures
            final(self)@ == old(self)@.shown(),
    {
        self.visible = true;
    }

    /// Starts hiding the dashboard; the caller plays the page's hide animation, waits
    /// for it, hides the overlay and then calls `finish_hide`.
    pub fn hide_dashboard(&mut self)
        ensures
            final(self)@ == old(self)@.hidden(),
    {
        self.visible = false;
    }

    /// Ends a hide: after the splash screen, the page to load next (the dashboard,
    /// served on `ui_port` and talking to the core on `http_port`), once.
    pub fn finish_hide(&mut self, ui_port: u16, http_port: u16) -> (page: Option<String>)
        ensures
            old(self)@.splash_played ==> (page matches Some(url) && url@ == dashboard_url_spec(ui_port, http_port)),
            !old(self)@.splash_played ==> page is None,
            final(self)@ == (DashboardView { splash_played: false, ..old(self)@ }),
    {
        if self.splash_played {
            self.splash_played = false;
            Some(dashboard_url(ui_port, http_port))
        } else {
            None
        }
    }

    /// Follows an event of the overlay runtime: a shown overlay asks for the page's
    /// show animation, a hiding one for its hide animation, and the main overlay
    /// (`main_overlay`) shown by a hand records that hand.
    pub fn openxr_callback(&mut self, event: OverlayEvent, main_overlay: u64) -> (action: PageAction)
        ensures
            action == old(self)@.event_action(event),
            final(self)@ == old(self)@.after_event(event, main_overlay),
    {
        match event {
            OverlayEvent::VisibilityChanged { visible } => if visible { PageAction::Show } else { PageAction::Nothing },
            OverlayEvent::Hiding { .. } => PageAction::Hide,
            OverlayEvent::VisibilityChangedLastInput { handle, visible, last_input } => {
                if visible && handle == main_overlay {
                    self.switch_hand = last_input;
                }
                PageAction::Nothing
            },
            _ => PageAction::Nothing,
        }
    }

    /// The hand that last opened the dashboard.
    pub fn openxr_show_hand(&self) -> (h: Hand)
        ensures
            h == self@.switch_hand,
    {
        self.switch_hand
    }
}

/// One call that changes the dashboard, for reasoning about runs of calls.
pub enum DashboardStep {
    Show,
    Hide,
    FinishHide,
    MarkSplashPlayed,
    Event { event: OverlayEvent },
}

impl DashboardView {
    /// The state after `step`, as the contract of the matching method gives it;
    /// `main_overlay` is the dashboard's overlay handle.
    pub open spec fn step(self, step: DashboardStep, main_overlay: u64) -> DashboardView {
        match step {
            DashboardStep::Show => self.shown(),
            DashboardStep::Hide => self.hidden(),
            DashboardStep::FinishHide => DashboardView { splash_played: false, ..self },
            DashboardStep::MarkSplashPlayed => DashboardView { splash_played: true, ..self },
            DashboardStep::Event { event } => self.after_event(event, main_overlay),
        }
    }
}

/// The state after the calls `steps`, in order, from `v`.
pub open spec fn run_dashboard(v: DashboardView, steps: Seq<DashboardStep>, main_overlay: u64) -> DashboardView
    decreases steps.len(),
{
    if steps.len() == 0 { v } else { run_dashboard(v, steps.drop_last(), main_overlay).step(steps.last(), main_overlay) }
}

/// The hand of the last event in `steps` that showed the main overlay by a hand, or
/// `default` when there was none.
pub open spec fn last_showing_hand(steps: Seq<DashboardStep>, main_overlay: u64, default: Hand) -> Hand
    decreases steps.len(),
{
    if steps.len() == 0 {
        default
    } else {
        match steps.last() {
            DashboardStep::Event { event: OverlayEvent::VisibilityChangedLastInput { handle, visible, last_input } }
                => if visible && handle == main_overlay { last_input } else {
                    last_showing_hand(steps.drop_last(), main_overlay, default)
                },
            _ => last_showing_hand(steps.drop_last(), main_overlay, default),
        }
    }
}

/// The hand the dashboard reports is that of the last event that showed the main
/// overlay by a hand; events that hid it, or concerned another overlay, and all other
/// calls leave it alone. A new dashboard reports the left hand.
pub proof fn lemma_show_hand_is_last_showing_hand(v: DashboardView, steps: Seq<DashboardStep>, main_overlay: u64)
    ensures
        run_dashboard(v, steps, main_overlay).switch_hand == last_showing_hand(steps, main_overlay, v.switch_hand),
    decreases steps.len(),
{
    if steps.len() > 0 {
        lemma_show_hand_is_last_showing_hand(v, steps.drop_last(), main_overlay);
    }
}

/// The dashboard address names the UI's port as the host's port and the core's HTTP
/// port as `corePort`: it reads `http://localhost:`, the digits of `ui_port`,
/// `/dashboard?corePort=` and the digits of `http_port`, for every pair of ports.
pub proof fn lemma_dashboard_url_names_ports(ui_port: u16, http_port: u16)
    ensures
        exists|host: Seq<char>, core: Seq<char>|
            dashboard_url_spec(ui_port, http_port) == "http://localhost:"@ + host + "/dashboard?corePort="@ + core
            && is_numeral(host) && #[trigger] numeral_value(host) == ui_port
            && is_numeral(core) && #[trigger] numeral_value(core) == http_port,
{
    lemma_decimal_reads_back(ui_port as nat);
    lemma_decimal_reads_back(http_port as nat);
    let host = decimal(ui_port as nat);
    let core = decimal(http_port as nat);
    assert(dashboard_url_spec(ui_port, http_port) == "http://localhost:"@ + host + "/dashboard?corePort="@ + core);
}

} // verus!
