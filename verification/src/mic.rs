//! The microphone-mute indicator of the overlay: which image it shows, when it is
//! visible, and the times from which its fading and scaling animations run.
//!
//! Times are milliseconds on one monotonic clock, read by the caller. The opacity
//! and scale curves themselves are floating-point and stay with the caller; this
//! module hands it the inputs they are computed from.

use vstd::prelude::*;

verus! {

/// The indicator's state as mathematical values.
pub struct MicView {
    pub mute_state: bool,
    pub mic_active: bool,
    pub fade_out: bool,
    pub enabled: bool,
    pub last_state_change: u64,
    pub last_presence_indication: u64,
    pub last_mic_activity_change: u64,
    pub mute_image_state: Option<bool>,
}

/// The microphone-mute indicator: whether the system microphone is muted, whether
/// voice activity is detected, whether the indicator fades out and is enabled, the
/// times of the last changes, and the mute state its image was last drawn for.
pub struct MicMuteIndicator {
    mute_state: bool,
    mic_active: bool,
    fade_out: bool,
    enabled: bool,
    last_state_change: u64,
    last_presence_indication: u64,
    last_mic_activity_change: u64,
    mute_image_state: Option<bool>,
}

/// The indicator settings of the core's state.
pub struct IndicatorSettings {
    pub fade_out: bool,
    pub enabled: bool,
}

/// The part of the core's state that the indicator follows.
pub struct IndicatorInput {
    pub system_mic_muted: bool,
    pub settings: Option<IndicatorSettings>,
}

/// How the indicator's opacity is found from the configured maximum.
#[derive(PartialEq, Eq, Structural)]
pub enum OpacityRule {
    /// Voice is detected on an unmuted microphone: the full configured opacity.
    Full,
    /// The configured opacity (a tenth of it when `dimmed`, i.e. unmuted), faded out
    /// over the time `quiet_ms` since the last change of any kind.
    Fade { quiet_ms: u64, dimmed: bool },
    /// The configured opacity, a tenth of it when `dimmed`.
    Steady { dimmed: bool },
}

impl View for MicMuteIndicator {
    type V = MicView;

    closed spec fn view(&self) -> MicView {
        MicView {
            mute_state: self.mute_state,
            mic_active: self.mic_active,
            fade_out: self.fade_out,
            enabled: self.enabled,
            last_state_change: self.last_state_change,
            last_presence_indication: self.last_presence_indication,
            last_mic_activity_change: self.last_mic_activity_change,
            mute_image_state: self.mute_image_state,
        }
    }
}

/// The time from `then` to `now`, zero when `then` is later.
pub open spec fn elapsed(now: u64, then: u64) -> nat {
    if now >= then { (now - then) as nat } else { 0 }
}

fn elapsed_ms(now: u64, then: u64) -> (d: u64)
    ensures
        d == elapsed(now, then),
{
    if now >= then { now - then } else { 0 }
}

impl MicView {
    /// The state after `set_active(active, now)`: a change of voice activity is
    /// stamped with `now`.
    pub open spec fn set_active_spec(self, active: bool, now: u64) -> MicView {
        MicView {
            mic_active: active,
            last_mic_activity_change: if self.mic_active != active { now } else { self.last_mic_activity_change },
            ..self
        }
    }

    /// The state after following the core's state at `now`: a change of the mute
    /// state is stamped with `now`; settings, when present, give the fade and the
    /// enabled flag.
    pub open spec fn sync_spec(self, input: Option<IndicatorInput>, now: u64) -> MicView {
        match input {
            None => self,
            Some(i) => {
                let muted = if i.system_mic_muted != self.mute_state {
                    MicView { mute_state: i.system_mic_muted, last_state_change: now, ..self }
                } else {
                    self
                };
                match i.settings {
                    None => muted,
                    Some(s) => MicView { fade_out: s.fade_out, enabled: s.enabled, ..muted },
                }
            },
        }
    }

    /// The visibility to give the indicator's overlay after following `input`: the
    /// new enabled flag when it changed.
    pub open spec fn visibility_change(self, input: Option<IndicatorInput>) -> Option<bool> {
        match input {
            Some(i) => match i.settings {
                Some(s) => if s.enabled != self.enabled { Some(s.enabled) } else { None },
                None => None,
            },
            None => None,
        }
    }

    /// The time since the last change of any kind: mute state, presence or voice
    /// activity.
    pub open spec fn quiet_time(self, now: u64) -> nat {
        let a = elapsed(now, self.last_presence_indication);
        let b = elapsed(now, self.last_state_change);
        let c = elapsed(now, self.last_mic_activity_change);
        let ab = if a <= b { a } else { b };
        if ab <= c { ab } else { c }
    }

    /// The opacity rule of this state at `now`.
    pub open spec fn opacity_rule(self, now: u64) -> OpacityRule {
        if self.mic_active && !self.mute_state {
            OpacityRule::Full
        } else if self.fade_out {
            OpacityRule::Fade { quiet_ms: self.quiet_time(now) as u64, dimmed: !self.mute_state }
        } else {
            OpacityRule::Steady { dimmed: !self.mute_state }
        }
    }
}

impl MicMuteIndicator {
    /// A new indicator at `now`: muted, no voice activity, not fading, not enabled,
    /// every change stamped `now`, no image drawn yet.
    pub fn new(now: u64) -> (m: MicMuteIndicator)
        ensures
            m@ == (MicView {
                mute_state: true,
                mic_active: false,
                fade_out: false,
                enabled: false,
                last_state_change: now,
                last_presence_indication: now,
                last_mic_activity_change: now,
                mute_image_state: None,
            }),
    {
        MicMuteIndicator {
            mute_state: true,
            mic_active: false,
            fade_out: false,
            enabled: false,
            last_state_change: now,
            last_presence_indication: now,
            last_mic_activity_change: now,
            mute_image_state: None,
        }
    }

    /// Records whether voice activity is detected; a change is stamped with `now`.
    pub fn set_active(&mut self, active: bool, now: u64)
        ensures
            final(self)@ == old(self)@.set_active_spec(active, now),
    {
        if self.mic_active != active {
            self.last_mic_activity_change = now;
        }
        self.mic_active = active;
    }

    /// Follows the core's state at `now` (nothing when there is none yet) and returns
    /// the visibility to give the indicator's overlay when its enabled flag changed.
    pub fn sync(&mut self, input: Option<IndicatorInput>, now: u64) -> (visible: Option<bool>)
        ensures
            visible == old(self)@.visibility_change(input),
            final(self)@ == old(self)@.sync_spec(input, now),
    {
        match input {
            None => None,
            Some(i) => {
                if i.system_mic_muted != self.mute_state {
                    self.mute_state = i.system_mic_muted;
                    self.last_state_change = now;
                }
                match i.settings {
                    None => None,
                    Some(s) => {
                        self.fade_out = s.fade_out;
                        if s.enabled != self.enabled {
                            self.enabled = s.enabled;
                            Some(s.enabled)
                        } else {
                            None
                        }
                    },
                }
            },
        }
    }

    /// Whether the indicator is enabled; a disabled one is not drawn at all.
    pub fn is_enabled(&self) -> (e: bool)
        ensures
            e == self@.enabled,
    {
        self.enabled
    }

    /// How the opacity is found at `now`.
    pub fn opacity_rule(&self, now: u64) -> (r: OpacityRule)
        ensures
            r == self@.opacity_rule(now),
    {
        if self.mic_active && !self.mute_state {
            OpacityRule::Full
        } else if self.fade_out {
            let a: u64 = elapsed_ms(now, self.last_presence_indication);
            let b: u64 = elapsed_ms(now, self.last_state_change);
            let c: u64 = elapsed_ms(now, self.last_mic_activity_change);
            let ab: u64 = if a <= b { a } else { b };
            let quiet_ms: u64 = if ab <= c { ab } else { c };
            OpacityRule::Fade { quiet_ms, dimmed: !self.mute_state }
        } else {
            OpacityRule::Steady { dimmed: !self.mute_state }
        }
    }

    /// Whether the drawn image belongs to another mute state than the current one.
    pub fn image_outdated(&self) -> (outdated: bool)
        ensures
            outdated == (self@.mute_image_state != Some(self@.mute_state)),
    {
        match self.mute_image_state {
            Some(m) => m != self.mute_state,
            None => true,
        }
    }

    /// Records that the image was redrawn; returns whether it is the muted image.
    pub fn record_image(&mut self) -> (muted: bool)
        ensures
            muted == old(self)@.mute_state,
            final(self)@ == (MicView { mute_image_state: Some(old(self)@.mute_state), ..old(self)@ }),
    {
        self.mute_image_state = Some(self.mute_state);
        self.mute_state
    }

    /// The time since the mute state last changed, from which the pop-in scaling runs.
    pub fn since_state_change(&self, now: u64) -> (d: u64)
        ensures
            d == elapsed(now, self@.last_state_change),
    {
        elapsed_ms(now, self.last_state_change)
    }

    /// The time since voice activity last changed, when the activity scaling applies:
    /// only for an unmuted microphone with voice detected.
    pub fn activity_scaling(&self, now: u64) -> (d: Option<u64>)
        ensures
            (!self@.mute_state && self@.mic_active) ==> d == Some(elapsed(now, self@.last_mic_activity_change) as u64),
            !(!self@.mute_state && self@.mic_active) ==> d is None,
    {
        if !self.mute_state && self.mic_active {
            Some(elapsed_ms(now, self.last_mic_activity_change))
        } else {
            None
        }
    }
}

/// Passes detected voice activity to the indicator, if there is one yet.
pub fn set_mic_active(indicator: &mut Option<MicMuteIndicator>, active: bool, now: u64)
    ensures
        match *old(indicator) {
            Some(m) => *final(indicator) matches Some(n) && n@ == m@.set_active_spec(active, now),
            None => *final(indicator) is None,
        },
{
    if let Some(m) = indicator {
        m.set_active(active, now);
    }
}

/// Repeating the same voice activity changes nothing more: its time stays that of
/// the first report.
pub proof fn lemma_set_active_idempotent(v: MicView, active: bool, first: u64, later: u64)
    ensures
        v.set_active_spec(active, first).set_active_spec(active, later) == v.set_active_spec(active, first),
{
}

/// Following the same core state twice changes nothing the second time, and asks
/// for no visibility change then.
pub proof fn lemma_sync_idempotent(v: MicView, input: IndicatorInput, first: u64, later: u64)
    ensures
        v.sync_spec(Some(input), first).sync_spec(Some(input), later) == v.sync_spec(Some(input), first),
        v.sync_spec(Some(input), first).visibility_change(Some(input)) is None,
{
}

/// The quiet time is no longer than the time since any one of the three changes.
pub proof fn lemma_quiet_time_bounded(v: MicView, now: u64)
    ensures
        v.quiet_time(now) <= elapsed(now, v.last_state_change),
        v.quiet_time(now) <= elapsed(now, v.last_presence_indication),
        v.quiet_time(now) <= elapsed(now, v.last_mic_activity_change),
{
}

/// The indicator is drawn at full opacity exactly when voice is detected on an
/// unmuted microphone; otherwise it fades out exactly when fading is enabled, and it
/// is dimmed to a tenth exactly when the microphone is unmuted: a muted microphone's
/// indicator is never dimmed. A fade runs over the shortest of the three times since
/// a change.
pub proof fn lemma_opacity_rule_follows_state(v: MicView, now: u64)
    ensures
        (v.opacity_rule(now) is Full) <==> (v.mic_active && !v.mute_state),
        (v.opacity_rule(now) is Fade) <==> (!(v.mic_active && !v.mute_state) && v.fade_out),
        v.opacity_rule(now) matches OpacityRule::Steady { dimmed } ==> dimmed == !v.mute_state,
        v.opacity_rule(now) matches OpacityRule::Fade { dimmed, .. } ==> dimmed == !v.mute_state,
        v.opacity_rule(now) matches OpacityRule::Fade { quiet_ms, .. } ==> {
            &&& quiet_ms <= elapsed(now, v.last_presence_indication)
            &&& quiet_ms <= elapsed(now, v.last_state_change)
            &&& quiet_ms <= elapsed(now, v.last_mic_activity_change)
            &&& (quiet_ms == elapsed(now, v.last_presence_indication) || quiet_ms == elapsed(now, v.last_state_change)
                || quiet_ms == elapsed(now, v.last_mic_activity_change))
        },
{
}

/// A visibility change is reported exactly when following the core's state flips the
/// enabled flag, and it is then the new flag.
pub proof fn lemma_visibility_follows_enabled(v: MicView, input: Option<IndicatorInput>, now: u64)
    ensures
        v.visibility_change(input) == (if v.sync_spec(input, now).enabled != v.enabled {
            Some(v.sync_spec(input, now).enabled)
        } else {
            None
        }),
{
}

} // verus!
