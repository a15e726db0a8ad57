//! The core's manager of one sidecar process: its launch arguments, whether it is
//! running, the start signal it sends back, and the restart schedule after it stops.
//!
//! The manager holds the state and takes the decisions; spawning, killing and
//! waiting on the process, and the timers between polls, are the caller's.

use vstd::prelude::*;
use crate::text::{decimal, decimal_string};

verus! {

/// Everything the manager knows about its sidecar, as mathematical values.
pub struct SidecarView {
    pub sidecar_id: Seq<char>,
    pub exe_file: Seq<char>,
    pub exe_dir: Seq<char>,
    pub grpc_port: Option<u32>,
    pub grpc_web_port: Option<u32>,
    pub active: bool,
    pub started: bool,
    pub child: Option<u32>,
    pub auto_restart: bool,
    pub args: Seq<Seq<char>>,
    pub killed: bool,
}

/// Manages one sidecar process: `child` is the process id of the running child,
/// `active` says the process is (believed to be) running, `started` that it has
/// signalled its start, and `killed` that it was stopped on purpose.
pub struct SidecarManager {
    sidecar_id: String,
    exe_file: String,
    exe_dir: String,
    grpc_port: Option<u32>,
    grpc_web_port: Option<u32>,
    active: bool,
    started: bool,
    child: Option<u32>,
    auto_restart: bool,
    args: Vec<String>,
    killed: bool,
}

impl View for SidecarManager {
    type V = SidecarView;

    closed spec fn view(&self) -> SidecarView {
        SidecarView {
            sidecar_id: self.sidecar_id@,
            exe_file: self.exe_file@,
            exe_dir: self.exe_dir@,
            grpc_port: self.grpc_port,
            grpc_web_port: self.grpc_web_port,
            active: self.active,
            started: self.started,
            child: self.child,
            auto_restart: self.auto_restart,
            args: self.args.deep_view(),
            killed: self.killed,
        }
    }
}

/// The launch arguments after `set_arg(arg, value, unique)`: a set flag is appended
/// unless `unique` asks for it once and it is there already; a cleared flag loses
/// its first occurrence.
pub open spec fn set_arg_spec(args: Seq<Seq<char>>, arg: Seq<char>, value: bool, unique: bool) -> Seq<Seq<char>> {
    if value {
        if !unique || !args.contains(arg) {
            args.push(arg)
        } else {
            args
        }
    } else {
        args.remove_value(arg)
    }
}

/// What `start_or_restart` asks of the caller: the process to kill, if any, whether
/// to start the sidecar, and whether that start replaces a running process (a
/// relaunch, which the watcher already looks after) or is a fresh one.
pub struct RestartPlan {
    pub kill: Option<u32>,
    pub start: bool,
    pub relaunch: bool,
}

/// What the watcher does after one poll of the sidecar.
#[derive(PartialEq, Eq, Structural)]
pub enum WatchAction {
    /// The sidecar runs: keep polling.
    Continue,
    /// The sidecar stopped: report it and keep polling.
    Stopped,
    /// The sidecar stopped on purpose: report it and stop watching.
    StoppedAndExit,
    /// The sidecar stopped: report it, wait this many milliseconds, relaunch it and
    /// keep polling.
    StoppedAndRestart { delay_ms: u64 },
}

/// The delays between relaunches, in milliseconds: 0.1 s, 1 s, 2 s, 5 s, 10 s, 30 s,
/// 1 min, 2 min and then 5 min for every later attempt.
pub open spec fn retry_delay(attempt: nat) -> nat {
    if attempt == 0 { 100 }
    else if attempt == 1 { 1000 }
    else if attempt == 2 { 2000 }
    else if attempt == 3 { 5000 }
    else if attempt == 4 { 10000 }
    else if attempt == 5 { 30000 }
    else if attempt == 6 { 60000 }
    else if attempt == 7 { 120000 }
    else { 300000 }
}

/// The index of the last delay in the schedule.
pub open spec fn last_attempt() -> nat {
    8
}

/// The attempt index after one more failed launch.
pub open spec fn next_attempt(attempt: nat) -> nat {
    if attempt + 1 >= last_attempt() { last_attempt() } else { attempt + 1 }
}

/// The delay, in milliseconds, before relaunch attempt `attempt`.
pub fn retry_delay_ms(attempt: usize) -> (d: u64)
    ensures
        d == retry_delay(attempt as nat),
{
    if attempt == 0 { 100 }
    else if attempt == 1 { 1000 }
    else if attempt == 2 { 2000 }
    else if attempt == 3 { 5000 }
    else if attempt == 4 { 10000 }
    else if attempt == 5 { 30000 }
    else if attempt == 6 { 60000 }
    else if attempt == 7 { 120000 }
    else { 300000 }
}

/// How many relaunches in a row have been tried since the sidecar last ran.
pub struct RestartBackoff {
    retries: usize,
}

impl RestartBackoff {
    #[verifier::type_invariant]
    spec fn within_schedule(self) -> bool {
        self.retries <= last_attempt()
    }

    /// The index into the delay schedule of the next relaunch.
    pub closed spec fn attempt(&self) -> nat {
        self.retries as nat
    }

    /// A watcher that has tried no relaunch yet.
    pub fn new() -> (b: RestartBackoff)
        ensures
            b.attempt() == 0,
    {
        RestartBackoff { retries: 0 }
    }

    /// The attempt index; never past the last delay of the schedule.
    pub fn retries(&self) -> (r: usize)
        ensures
            r == self.attempt(),
            r <= last_attempt(),
    {
        proof { use_type_invariant(self); }
        self.retries
    }

    /// Back to the first delay: the sidecar was seen running.
    fn reset(&mut self)
        ensures
            final(self).attempt() == 0,
    {
        self.retries = 0;
    }

    /// Takes the delay of the current attempt and moves to the next one, staying on
    /// the last delay once it is reached.
    fn take_delay(&mut self) -> (d: u64)
        ensures
            d == retry_delay(old(self).attempt()),
            final(self).attempt() == next_attempt(old(self).attempt()),
    {
        proof { use_type_invariant(&*self); }
        let d: u64 = retry_delay_ms(self.retries);
        if self.retries + 1 >= 8 {
            self.retries = 8;
        } else {
            self.retries = self.retries + 1;
        }
        d
    }
}

impl SidecarView {
    /// The state with other launch arguments.
    pub open spec fn with_args(self, args: Seq<Seq<char>>) -> SidecarView {
        SidecarView { args, ..self }
    }

    /// The state once a start is under way: the sidecar counts as active, and nothing
    /// of an earlier process's start (its start signal, its ports) is kept.
    pub open spec fn marked_active(self) -> SidecarView {
        SidecarView { active: true, started: false, grpc_port: None, grpc_web_port: None, ..self }
    }

    /// The state once a child process `pid` was spawned.
    pub open spec fn with_child(self, pid: u32) -> SidecarView {
        SidecarView { child: Some(pid), ..self }
    }

    /// The state once the child process exited, or its launch failed: the sidecar is
    /// neither running nor started.
    pub open spec fn exited(self) -> SidecarView {
        SidecarView { active: false, started: false, ..self }
    }

    /// The state after a stop on purpose of a sidecar with a child.
    pub open spec fn stopped_on_purpose(self) -> SidecarView {
        SidecarView { killed: true, ..self }
    }

    /// The state after a start signal that was accepted.
    pub open spec fn signal_accepted(self, grpc_port: Option<u32>, grpc_web_port: Option<u32>) -> SidecarView {
        SidecarView { active: true, started: true, grpc_port, grpc_web_port, ..self }
    }

    /// Whether a start signal from process `pid` (which replaces `old_pid`) is taken:
    /// always when `pid` is 0 (a sidecar run by hand in development); otherwise only
    /// while the sidecar is active, and not when another child is known that is
    /// neither `pid` nor a given `old_pid`.
    pub open spec fn accepts_start_signal(self, pid: u32, old_pid: Option<u32>) -> bool {
        pid == 0 || (self.active && !(self.child is Some && self.child->0 != pid && old_pid is Some
            && self.child->0 != old_pid->0))
    }

    /// The state after a poll that found the sidecar no longer active: no child, no
    /// ports, not started; with automatic restart, a stop on purpose is forgotten.
    pub open spec fn after_stopped_poll(self) -> SidecarView {
        SidecarView {
            child: None,
            grpc_port: None,
            grpc_web_port: None,
            active: false,
            started: false,
            killed: if self.auto_restart { false } else { self.killed },
            ..self
        }
    }

    /// What the watcher does when a poll finds the sidecar inactive, at attempt `attempt`.
    pub open spec fn stopped_action(self, attempt: nat) -> WatchAction {
        if !self.auto_restart {
            WatchAction::Stopped
        } else if self.killed {
            WatchAction::StoppedAndExit
        } else {
            WatchAction::StoppedAndRestart { delay_ms: retry_delay(attempt) as u64 }
        }
    }

    /// The attempt index after a poll that found the sidecar inactive.
    pub open spec fn attempt_after_stop(self, attempt: nat) -> nat {
        if self.auto_restart && !self.killed { next_attempt(attempt) } else { attempt }
    }

    /// Whether a non-relaunch start may go ahead: the core's port is known and the
    /// sidecar is not active already. A relaunch needs only the port.
    pub open spec fn may_start(self, relaunch: bool, core_grpc_port: Option<u32>) -> bool {
        core_grpc_port is Some && (relaunch || !self.active)
    }
}

impl SidecarManager {
    /// A manager of a sidecar that is not running yet, with its id, the directory and
    /// file name of its executable, whether to relaunch it when it stops, and its
    /// extra launch arguments.
    pub fn new(sidecar_id: String, exe_dir: String, exe_file: String, auto_restart: bool, args: Vec<String>) -> (m: SidecarManager)
        ensures
            m@ == (SidecarView {
                sidecar_id: sidecar_id@,
                exe_file: exe_file@,
                exe_dir: exe_dir@,
                grpc_port: None,
                grpc_web_port: None,
                active: false,
                started: false,
                child: None,
                auto_restart,
                args: args.deep_view(),
                killed: false,
            }),
    {
        SidecarManager {
            sidecar_id,
            exe_file,
            exe_dir,
            grpc_port: None,
            grpc_web_port: None,
            active: false,
            started: false,
            child: None,
            auto_restart,
            args,
            killed: false,
        }
    }

    fn position_of(&self, arg: &String) -> (r: Option<usize>)
        ensures
            match r {
                Some(i) => i < self.args.len() && self@.args[i as int] == arg@ && forall|j: int|
                    0 <= j < i ==> self@.args[j] != arg@,
                None => !self@.args.contains(arg@),
            },
    {
        let n: usize = self.args.len();
        let mut i: usize = 0;
        while i < n
            invariant
                n == self.args.len(),
                i <= n,
                forall|j: int| 0 <= j < i ==> self@.args[j] != arg@,
            decreases n - i,
        {
            if self.args[i] == *arg {
                return Some(i);
            }
            i = i + 1;
        }
        None
    }

    /// Sets (`value`) or clears a launch flag. A set flag is appended, or, when
    /// `unique`, appended only if it is not there yet; a cleared flag loses its
    /// first occurrence.
    pub fn set_arg(&mut self, arg: &str, value: bool, unique: bool)
        ensures
            final(self)@ == old(self)@.with_args(set_arg_spec(old(self)@.args, arg@, value, unique)),
    {
        let arg: String = arg.to_owned();
        let found: Option<usize> = self.position_of(&arg);
        proof {
            old(self)@.args.index_of_first_ensures(arg@);
        }
        if value {
            if !unique || found.is_none() {
                self.args.push(arg);
                assert(self.args.deep_view() =~= old(self)@.args.push(arg@));
            }
        } else if let Some(index) = found {
            let ghost before = self.args.deep_view();
            self.args.remove(index);
            proof {
                let k = before.index_of_first(arg@)->0;
                assert(k == index as int) by {
                    if k < index as int {
                        assert(before[k] == arg@);
                    }
                }
                assert(self.args.deep_view() =~= before.remove(index as int));
            }
        }
    }

    /// Replaces all extra launch arguments.
    pub fn set_args(&mut self, args: Vec<String>)
        ensures
            final(self)@ == old(self)@.with_args(args.deep_view()),
    {
        self.args = args;
    }

    /// Decides a start or restart: an active sidecar's child is killed first, and a
    /// start follows when the sidecar was not active, or when it is not relaunched
    /// automatically (then the start is a relaunch, which goes ahead although the old
    /// process still counts as running). Under automatic restart the watcher relaunches
    /// the killed child instead. Nothing changes here.
    pub fn start_or_restart(&self) -> (plan: RestartPlan)
        ensures
            plan.kill == (if self@.active { self@.child } else { None }),
            plan.start == (!self@.active || !self@.auto_restart),
            plan.relaunch == self@.active,
            forall|core_grpc_port: u32| plan.start ==> self@.may_start(plan.relaunch, Some(core_grpc_port)),
    {
        RestartPlan {
            kill: if self.active { self.child } else { None },
            start: !self.active || !self.auto_restart,
            relaunch: self.active,
        }
    }

    /// The first step of a start or relaunch. Without the core's gRPC port, or for a
    /// start (not a relaunch) of an active sidecar, nothing happens and `None` is
    /// returned; otherwise the sidecar is marked active, any earlier start signal and
    /// ports are forgotten, and the port is returned.
    pub fn begin_start(&mut self, relaunch: bool, core_grpc_port: Option<u32>) -> (r: Option<u32>)
        ensures
            old(self)@.may_start(relaunch, core_grpc_port) ==> r == core_grpc_port
                && final(self)@ == old(self)@.marked_active(),
            !old(self)@.may_start(relaunch, core_grpc_port) ==> r is None && final(self)@ == old(self)@,
    {
        match core_grpc_port {
            None => None,
            Some(port) => {
                if !relaunch && self.active {
                    None
                } else {
                    self.active = true;
                    self.started = false;
                    self.grpc_port = None;
                    self.grpc_web_port = None;
                    Some(port)
                }
            },
        }
    }

    /// The command line of the sidecar: the core's gRPC port, the core's own process
    /// id, then the extra arguments.
    pub fn launch_args(&self, core_grpc_port: u32, core_pid: u32) -> (args: Vec<String>)
        ensures
            args.deep_view() == seq![decimal(core_grpc_port as nat), decimal(core_pid as nat)] + self@.args,
    {
        let mut args: Vec<String> = Vec::new();
        args.push(decimal_string(core_grpc_port as u64));
        args.push(decimal_string(core_pid as u64));
        let n: usize = self.args.len();
        let mut i: usize = 0;
        while i < n
            invariant
                n == self.args.len(),
                i <= n,
                args.deep_view() =~= seq![decimal(core_grpc_port as nat), decimal(core_pid as nat)]
                    + self@.args.subrange(0, i as int),
            decreases n - i,
        {
            let item: String = self.args[i].clone();
            assert(item@ == self@.args[i as int]);
            let ghost prev = args.deep_view();
            args.push(item);
            assert(args.deep_view() =~= prev.push(item@));
            i = i + 1;
            assert(args.deep_view() =~= seq![decimal(core_grpc_port as nat), decimal(core_pid as nat)]
                + self@.args.subrange(0, i as int));
        }
        assert(self@.args.subrange(0, n as int) =~= self@.args);
        args
    }

    /// Records the child process that was spawned.
    pub fn record_child(&mut self, pid: u32)
        ensures
            final(self)@ == old(self)@.with_child(pid),
    {
        self.child = Some(pid);
    }

    /// The child process has exited: the sidecar is no longer running, nor started.
    pub fn child_exited(&mut self)
        ensures
            final(self)@ == old(self)@.exited(),
    {
        self.active = false;
        self.started = false;
    }

    /// A launch that `begin_start` let through failed before a process was spawned
    /// (no executable, no browser runtime): the sidecar is no longer counted as running.
    pub fn launch_failed(&mut self)
        ensures
            final(self)@ == old(self)@.exited(),
    {
        self.active = false;
        self.started = false;
    }

    /// Stops the sidecar on purpose: with a child, it is marked as killed and its
    /// process id is returned for the caller to kill; without one, nothing happens.
    pub fn stop(&mut self) -> (kill: Option<u32>)
        ensures
            kill == old(self)@.child,
            old(self)@.child is Some ==> final(self)@ == old(self)@.stopped_on_purpose(),
            old(self)@.child is None ==> final(self)@ == old(self)@,
    {
        match self.child {
            Some(pid) => {
                self.killed = true;
                Some(pid)
            },
            None => None,
        }
    }

    /// Handles the start signal of a sidecar process `pid` (0 for one run by hand),
    /// which may replace `old_pid`. An accepted signal marks the sidecar active and
    /// started and records its gRPC ports; a refused one changes nothing.
    pub fn handle_start_signal(&mut self, grpc_port: Option<u32>, grpc_web_port: Option<u32>, pid: u32, old_pid: Option<u32>) -> (accepted: bool)
        ensures
            accepted == old(self)@.accepts_start_signal(pid, old_pid),
            accepted ==> final(self)@ == old(self)@.signal_accepted(grpc_port, grpc_web_port),
            !accepted ==> final(self)@ == old(self)@,
    {
        if pid != 0 {
            if !self.active {
                return false;
            }
            if let Some(current) = self.child {
                let replaced: bool = match old_pid {
                    Some(o) => current != o,
                    None => false,
                };
                if current != pid && replaced {
                    return false;
                }
            }
        } else {
            self.active = true;
        }
        self.started = true;
        self.grpc_port = grpc_port;
        self.grpc_web_port = grpc_web_port;
        true
    }

    /// The sidecar's id.
    pub fn sidecar_id(&self) -> (id: &String)
        ensures
            id@ == self@.sidecar_id,
    {
        &self.sidecar_id
    }

    /// The file name of the sidecar's executable.
    pub fn exe_file(&self) -> (f: &String)
        ensures
            f@ == self@.exe_file,
    {
        &self.exe_file
    }

    /// The directory of the sidecar's executable.
    pub fn exe_dir(&self) -> (d: &String)
        ensures
            d@ == self@.exe_dir,
    {
        &self.exe_dir
    }

    /// The extra launch arguments.
    pub fn args(&self) -> (a: &Vec<String>)
        ensures
            a.deep_view() == self@.args,
    {
        &self.args
    }

    /// The sidecar's gRPC port, once it signalled its start.
    pub fn grpc_port(&self) -> (p: Option<u32>)
        ensures
            p == self@.grpc_port,
    {
        self.grpc_port
    }

    /// The sidecar's gRPC-web port, once it signalled its start.
    pub fn grpc_web_port(&self) -> (p: Option<u32>)
        ensures
            p == self@.grpc_web_port,
    {
        self.grpc_web_port
    }

    /// Whether the sidecar process is running.
    pub fn is_active(&self) -> (a: bool)
        ensures
            a == self@.active,
    {
        self.active
    }

    /// Whether the sidecar process is running and has signalled its start.
    pub fn has_started(&self) -> (s: bool)
        ensures
            s == self@.started,
    {
        self.started
    }

    /// The process id of the running child, if any.
    pub fn child_pid(&self) -> (p: Option<u32>)
        ensures
            p == self@.child,
    {
        self.child
    }

    /// Whether the sidecar is relaunched when it stops by itself.
    pub fn auto_restart(&self) -> (r: bool)
        ensures
            r == self@.auto_restart,
    {
        self.auto_restart
    }

    /// Whether the sidecar was stopped on purpose and the stop not yet seen by the watcher.
    pub fn killed(&self) -> (k: bool)
        ensures
            k == self@.killed,
    {
        self.killed
    }

    /// One poll of the watcher. An active sidecar resets the restart schedule. An
    /// inactive one is cleared (no child, no ports, not started) and reported; with
    /// automatic restart it is then relaunched after the scheduled delay, unless it
    /// was stopped on purpose, which ends the watch.
    pub fn poll(&mut self, backoff: &mut RestartBackoff) -> (action: WatchAction)
        ensures
            old(self)@.active ==> action == WatchAction::Continue && final(self)@ == old(self)@
                && final(backoff).attempt() == 0,
            !old(self)@.active ==> action == old(self)@.stopped_action(old(backoff).attempt())
                && final(self)@ == old(self)@.after_stopped_poll()
                && final(backoff).attempt() == old(self)@.attempt_after_stop(old(backoff).attempt()),
    {
        if self.active {
            backoff.reset();
            return WatchAction::Continue;
        }
        self.child = None;
        self.grpc_port = None;
        self.grpc_web_port = None;
        self.active = false;
        self.started = false;
        if !self.auto_restart {
            WatchAction::Stopped
        } else if self.killed {
            self.killed = false;
            WatchAction::StoppedAndExit
        } else {
            let delay_ms: u64 = backoff.take_delay();
            WatchAction::StoppedAndRestart { delay_ms }
        }
    }
}

/// The attempt index after `n` relaunches in a row, each failing before the sidecar
/// was seen running.
pub open spec fn attempt_after_failures(n: nat) -> nat
    decreases n,
{
    if n == 0 { 0 } else { next_attempt(attempt_after_failures((n - 1) as nat)) }
}

/// The relaunch delays never shrink along the schedule, start at 0.1 s and never
/// exceed 5 minutes.
pub proof fn lemma_retry_delays_non_decreasing(a: nat, b: nat)
    requires
        a <= b,
    ensures
        retry_delay(a) <= retry_delay(b),
        100 <= retry_delay(a) <= 300000,
{
}

/// After `n` failed relaunches in a row the schedule stands at attempt `n`, or at its
/// last delay once that is reached: the delays of a run of failures are those of the
/// schedule in order, then 5 minutes each.
pub proof fn lemma_attempt_after_failures(n: nat)
    ensures
        attempt_after_failures(n) == (if n < last_attempt() { n } else { last_attempt() }),
    decreases n,
{
    if n > 0 {
        lemma_attempt_after_failures((n - 1) as nat);
    }
}

/// A sidecar stopped on purpose is not relaunched: once its child has exited, the
/// watcher's next poll ends the watch instead of scheduling a relaunch, and forgets
/// the stop.
pub proof fn lemma_stop_prevents_restart(v: SidecarView, attempt: nat)
    requires
        v.child is Some,
        v.auto_restart,
    ensures
        v.stopped_on_purpose().exited().stopped_action(attempt) == WatchAction::StoppedAndExit,
        !v.stopped_on_purpose().exited().after_stopped_poll().killed,
        v.stopped_on_purpose().exited().attempt_after_stop(attempt) == attempt,
{
}

/// A sidecar that stops by itself under automatic restart is relaunched after the
/// scheduled delay, and the relaunch goes ahead whenever the core's port is known.
pub proof fn lemma_unexpected_exit_restarts(v: SidecarView, attempt: nat, core_grpc_port: u32)
    requires
        v.auto_restart,
        !v.killed,
    ensures
        v.exited().stopped_action(attempt) == (WatchAction::StoppedAndRestart { delay_ms: retry_delay(attempt) as u64 }),
        v.exited().after_stopped_poll().may_start(true, Some(core_grpc_port)),
{
}

/// The sidecar that was just launched is heard: once a start went ahead and its child
/// `pid` was recorded, the start signal of that process is accepted, whatever process
/// it names as replaced.
pub proof fn lemma_launched_child_is_accepted(v: SidecarView, pid: u32, old_pid: Option<u32>)
    ensures
        v.marked_active().with_child(pid).accepts_start_signal(pid, old_pid),
{
}

/// A poll that finds the sidecar gone forgets its start: whatever was signalled, the
/// sidecar counts as neither running nor started, and has no child or ports.
pub proof fn lemma_stopped_poll_forgets_start(v: SidecarView, grpc_port: Option<u32>, grpc_web_port: Option<u32>)
    ensures
        ({
            let after = v.signal_accepted(grpc_port, grpc_web_port).exited().after_stopped_poll();
            &&& !after.active
            &&& !after.started
            &&& after.child is None
            &&& after.grpc_port is None
            &&& after.grpc_web_port is None
        }),
{
}

/// A start is not repeated: once a (non-relaunch) start went ahead, another one does
/// nothing until the sidecar is seen inactive.
pub proof fn lemma_start_not_repeated(v: SidecarView, first: Option<u32>, second: Option<u32>)
    requires
        v.may_start(false, first),
    ensures
        !v.marked_active().may_start(false, second),
{
}

/// Setting a flag makes it present, whether or not it must be unique.
pub proof fn lemma_set_arg_present(args: Seq<Seq<char>>, arg: Seq<char>, unique: bool)
    ensures
        set_arg_spec(args, arg, true, unique).contains(arg),
{
    if !unique || !args.contains(arg) {
        assert(args.push(arg)[args.len() as int] == arg);
    }
}

/// Setting a unique flag twice is setting it once.
pub proof fn lemma_set_unique_arg_idempotent(args: Seq<Seq<char>>, arg: Seq<char>)
    ensures
        set_arg_spec(set_arg_spec(args, arg, true, true), arg, true, true) == set_arg_spec(args, arg, true, true),
{
    lemma_set_arg_present(args, arg, true);
}

/// Clearing a flag undoes setting it when it was absent before.
pub proof fn lemma_clear_undoes_set(args: Seq<Seq<char>>, arg: Seq<char>, unique: bool, unique_again: bool)
    requires
        !args.contains(arg),
    ensures
        set_arg_spec(set_arg_spec(args, arg, true, unique), arg, false, unique_again) == args,
{
    let pushed = args.push(arg);
    assert(pushed[args.len() as int] == arg);
    assert(pushed.contains(arg));
    pushed.index_of_first_ensures(arg);
    let k = pushed.index_of_first(arg)->0;
    if k < args.len() {
        assert(pushed[k] == args[k]);
        assert(args.contains(arg));
    }
    assert(k == args.len());
    assert(pushed.remove(args.len() as int) =~= args);
}

/// Flags kept unique stay unique: setting a unique flag, or clearing any flag, keeps
/// a list without duplicates free of them.
pub proof fn lemma_unique_args_stay_unique(args: Seq<Seq<char>>, arg: Seq<char>, value: bool)
    requires
        args.no_duplicates(),
    ensures
        set_arg_spec(args, arg, value, true).no_duplicates(),
{
    if value {
        if !args.contains(arg) {
            let pushed = args.push(arg);
            assert forall|i: int, j: int| 0 <= i < pushed.len() && 0 <= j < pushed.len() && i != j
                implies pushed[i] != pushed[j] by {
                if i == args.len() {
                    assert(args[j] == pushed[j]);
                } else if j == args.len() {
                    assert(args[i] == pushed[i]);
                }
            }
        }
    } else {
        args.index_of_first_ensures(arg);
        if args.contains(arg) {
            let k = args.index_of_first(arg)->0;
            let r = args.remove(k);
            assert forall|i: int, j: int| 0 <= i < r.len() && 0 <= j < r.len() && i != j
                implies r[i] != r[j] by {
                let i2 = if i < k { i } else { i + 1 };
                let j2 = if j < k { j } else { j + 1 };
                assert(r[i] == args[i2]);
                assert(r[j] == args[j2]);
            }
        }
    }
}

/// Clearing a flag from a list without duplicates removes it entirely.
pub proof fn lemma_clear_removes_unique_arg(args: Seq<Seq<char>>, arg: Seq<char>, unique: bool)
    requires
        args.no_duplicates(),
    ensures
        !set_arg_spec(args, arg, false, unique).contains(arg),
{
    args.index_of_first_ensures(arg);
    if args.contains(arg) {
        let k = args.index_of_first(arg)->0;
        let r = args.remove(k);
        if r.contains(arg) {
            let i = choose|i: int| 0 <= i < r.len() && r[i] == arg;
            let i2 = if i < k { i } else { i + 1 };
            assert(r[i] == args[i2]);
        }
    }
}

/// One call that changes a sidecar manager, for reasoning about runs of calls.
pub enum SidecarEvent {
    SetArg { arg: Seq<char>, value: bool, unique: bool },
    SetArgs { args: Seq<Seq<char>> },
    BeginStart { relaunch: bool, core_grpc_port: Option<u32> },
    RecordChild { pid: u32 },
    ChildExited,
    LaunchFailed,
    Stop,
    StartSignal { grpc_port: Option<u32>, grpc_web_port: Option<u32>, pid: u32, old_pid: Option<u32> },
    Poll,
}

impl SidecarView {
    /// The state after `e`, as the contract of the matching method gives it.
    pub open spec fn step(self, e: SidecarEvent) -> SidecarView {
        match e {
            SidecarEvent::SetArg { arg, value, unique } => self.with_args(set_arg_spec(self.args, arg, value, unique)),
            SidecarEvent::SetArgs { args } => self.with_args(args),
            SidecarEvent::BeginStart { relaunch, core_grpc_port } =>
                if self.may_start(relaunch, core_grpc_port) { self.marked_active() } else { self },
            SidecarEvent::RecordChild { pid } => self.with_child(pid),
            SidecarEvent::ChildExited => self.exited(),
            SidecarEvent::LaunchFailed => self.exited(),
            SidecarEvent::Stop => if self.child is Some { self.stopped_on_purpose() } else { self },
            SidecarEvent::StartSignal { grpc_port, grpc_web_port, pid, old_pid } =>
                if self.accepts_start_signal(pid, old_pid) { self.signal_accepted(grpc_port, grpc_web_port) } else { self },
            SidecarEvent::Poll => if self.active { self } else { self.after_stopped_poll() },
        }
    }

    /// Whether `e`, taken in this state, is a start signal that is accepted.
    pub open spec fn takes_signal(self, e: SidecarEvent) -> bool {
        match e {
            SidecarEvent::StartSignal { pid, old_pid, .. } => self.accepts_start_signal(pid, old_pid),
            _ => false,
        }
    }

    /// Whether `e`, taken in this state, shows the sidecar gone: its child exited, its
    /// launch failed, or a poll found it inactive.
    pub open spec fn sees_stop(self, e: SidecarEvent) -> bool {
        match e {
            SidecarEvent::ChildExited => true,
            SidecarEvent::LaunchFailed => true,
            SidecarEvent::Poll => !self.active,
            _ => false,
        }
    }
}

/// The state after the calls `es`, in order, from `v`.
pub open spec fn run(v: SidecarView, es: Seq<SidecarEvent>) -> SidecarView
    decreases es.len(),
{
    if es.len() == 0 { v } else { run(v, es.drop_last()).step(es.last()) }
}

/// A sidecar counts as started only after an accepted start signal with no sign of
/// its end since: from a state not started, if the calls `es` leave it started, one
/// of them was an accepted start signal and none after it saw the sidecar gone.
pub proof fn lemma_started_only_by_accepted_signal(v: SidecarView, es: Seq<SidecarEvent>)
    requires
        !v.started,
    ensures
        run(v, es).started ==> exists|i: int|
            0 <= i < es.len() && #[trigger] run(v, es.take(i)).takes_signal(es[i]) && forall|j: int|
                i < j < es.len() ==> !#[trigger] run(v, es.take(j)).sees_stop(es[j]),
    decreases es.len(),
{
    if es.len() > 0 && run(v, es).started {
        let n = es.len() - 1;
        let prefix = es.drop_last();
        assert(prefix =~= es.take(n));
        let before = run(v, prefix);
        if before.takes_signal(es[n]) {
            assert(run(v, es.take(n)).takes_signal(es[n]));
        } else {
            assert(before.started);
            assert(!before.sees_stop(es[n]));
            lemma_started_only_by_accepted_signal(v, prefix);
            let i = choose|i: int|
                0 <= i < prefix.len() && #[trigger] run(v, prefix.take(i)).takes_signal(prefix[i]) && forall|j: int|
                    i < j < prefix.len() ==> !#[trigger] run(v, prefix.take(j)).sees_stop(prefix[j]);
            assert(prefix.take(i) =~= es.take(i));
            assert(run(v, es.take(i)).takes_signal(es[i]));
            assert forall|j: int| i < j < es.len() implies !#[trigger] run(v, es.take(j)).sees_stop(es[j]) by {
                if j < n {
                    assert(prefix.take(j) =~= es.take(j));
                    assert(!run(v, prefix.take(j)).sees_stop(prefix[j]));
                }
            }
        }
    }
}

/// Only a stop on purpose marks the sidecar as killed: from a state not killed, a
/// run of calls without `Stop` leaves it not killed.
pub proof fn lemma_killed_only_by_stop(v: SidecarView, es: Seq<SidecarEvent>)
    requires
        !v.killed,
        forall|i: int| 0 <= i < es.len() ==> !(#[trigger] es[i] is Stop),
    ensures
        !run(v, es).killed,
    decreases es.len(),
{
    if es.len() > 0 {
        assert forall|i: int| 0 <= i < es.drop_last().len() implies !(#[trigger] es.drop_last()[i] is Stop) by {
            assert(es.drop_last()[i] == es[i]);
        }
        lemma_killed_only_by_stop(v, es.drop_last());
        assert(!(es[es.len() - 1] is Stop));
    }
}

/// Under automatic restart, a sidecar that nobody stopped on purpose is relaunched
/// every time a poll finds it gone: after any run of calls without `Stop` from a
/// state not killed, a poll of the inactive sidecar asks for a relaunch after the
/// scheduled delay, and leaves it not killed.
pub proof fn lemma_crashes_always_relaunch(v: SidecarView, es: Seq<SidecarEvent>, attempt: nat)
    requires
        !v.killed,
        v.auto_restart,
        forall|i: int| 0 <= i < es.len() ==> !(#[trigger] es[i] is Stop),
    ensures
        !run(v, es).active ==> run(v, es).stopped_action(attempt)
            == (WatchAction::StoppedAndRestart { delay_ms: retry_delay(attempt) as u64 }),
        !run(v, es).active ==> !run(v, es).step(SidecarEvent::Poll).killed,
{
    lemma_killed_only_by_stop(v, es);
    lemma_auto_restart_kept(v, es);
}

/// No call changes whether the sidecar restarts automatically.
pub proof fn lemma_auto_restart_kept(v: SidecarView, es: Seq<SidecarEvent>)
    ensures
        run(v, es).auto_restart == v.auto_restart,
    decreases es.len(),
{
    if es.len() > 0 {
        lemma_auto_restart_kept(v, es.drop_last());
    }
}

/// How start signals are judged: a sidecar run by hand (process 0) is always heard;
/// otherwise an inactive sidecar hears nobody, an active one hears its own child and
/// any process when no child is known, and a stranger that names another process
/// than the child as replaced is refused.
pub proof fn lemma_start_signal_rules(v: SidecarView, pid: u32, old_pid: Option<u32>)
    ensures
        pid == 0 ==> v.accepts_start_signal(pid, old_pid),
        pid != 0 && !v.active ==> !v.accepts_start_signal(pid, old_pid),
        v.active && (v.child is None || v.child == Some(pid)) ==> v.accepts_start_signal(pid, old_pid),
        v.active && old_pid is Some && v.child == old_pid ==> v.accepts_start_signal(pid, old_pid),
        v.active && old_pid is None ==> v.accepts_start_signal(pid, old_pid),
        pid != 0 && v.child is Some && v.child != Some(pid) && old_pid is Some && v.child != old_pid
            ==> !v.accepts_start_signal(pid, old_pid),
{
}

} // verus!
