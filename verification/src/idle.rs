use vstd::prelude::*;

use crate::text::{
    chars_eq_str, chars_of, debug_quote, debug_quoted, dec_digits, dec_int, i64_to_dec,
    lemma_parse_dec_round_trip, parse_i64_chars, parse_i64_dec, push_chars, push_str, u64_to_dec,
};

verus! {

/// The command run when the sleep timeout fires, unless configured.
pub open spec fn default_sleep_command() -> Seq<char> {
    "systemctl suspend"@
}

/// The `idle { }` block, in seconds; 0 disables a timeout.
#[derive(Debug, Clone)]
pub struct IdleConfig {
    pub display_off_s: i64,
    pub sleep_s: i64,
    pub sleep_command: Option<String>,
}

impl IdleConfig {
    /// Both timeouts off, the default sleep command.
    pub fn new() -> (c: IdleConfig)
        ensures
            c.display_off_s == 0,
            c.sleep_s == 0,
            c.sleep_command is None,
    {
        IdleConfig { display_off_s: 0, sleep_s: 0, sleep_command: None }
    }
}

/// Re-arming is throttled to once per this many ms unless forced.
pub const REARM_MIN_MS: u64 = 1000;

/// The idle timers' state: timeouts, the inhibitor, what the timers have
/// done, and when they were last armed and input last seen (monotonic ms).
pub struct IdleManager {
    /// Display-off timeout in ms; 0 = disabled.
    pub display_off_ms: i64,
    /// Sleep timeout in ms; 0 = disabled.
    pub sleep_ms: i64,
    /// `None` means the default sleep command.
    pub sleep_command: Option<String>,
    /// An idle inhibitor is active: the timers are held disarmed.
    pub inhibited: bool,
    /// The display timeout fired and the outputs were darkened by us.
    pub displays_off: bool,
    /// The sleep command was spawned; cleared by the next activity.
    pub sleeping: bool,
    pub armed_at_ms: u64,
    pub last_activity_ms: u64,
}

/// The durations both timers are armed with (0 disarms one).
#[derive(Debug, Clone, Copy, PartialEq, Eq, Structural)]
pub struct TimerArm {
    pub display_ms: i32,
    pub sleep_ms: i32,
}

/// What a power change does to one output: whether it was darkened by the
/// idle timeout, and its scheduled state.
#[derive(Debug, Clone, Copy, PartialEq, Eq, Structural)]
pub enum OutputPower {
    Enabled,
    DisabledSoft,
    Disabled,
}

/// Outside work an idle event asks for.
#[derive(Debug, Clone, Copy, PartialEq, Eq, Structural)]
pub struct IdleEffect {
    /// Turn the outputs on (`Some(true)`) or off (`Some(false)`).
    pub displays: Option<bool>,
    /// Run the sleep command.
    pub spawn_sleep: bool,
    /// Re-arm both timers.
    pub arm: Option<TimerArm>,
}

pub open spec fn clamp_i32(ms: int) -> i32 {
    if ms > i32::MAX {
        i32::MAX
    } else {
        ms as i32
    }
}

/// `v.max(0) * 1000` stays in `i64`.
pub open spec fn seconds_fit(v: i64) -> bool {
    v <= i64::MAX / 1000
}

pub open spec fn ms_of(v: i64) -> i64 {
    if v > 0 {
        (v * 1000) as i64
    } else {
        0
    }
}

impl IdleManager {
    /// Timeouts are never negative.
    pub open spec fn wf(&self) -> bool {
        self.display_off_ms >= 0 && self.sleep_ms >= 0
    }

    /// What `rearm` arms the timers with: the timeouts, or nothing while
    /// inhibited.
    pub open spec fn arm_for(&self) -> TimerArm {
        if self.inhibited {
            TimerArm { display_ms: 0, sleep_ms: 0 }
        } else {
            TimerArm {
                display_ms: clamp_i32(self.display_off_ms as int),
                sleep_ms: clamp_i32(self.sleep_ms as int),
            }
        }
    }

    /// The state at start-up: both timeouts off, nothing darkened or
    /// sleeping, input last seen `now`.
    pub fn new(now: u64) -> (m: IdleManager)
        ensures
            m.wf(),
            m.display_off_ms == 0,
            m.sleep_ms == 0,
            m.sleep_command is None,
            !m.inhibited,
            !m.displays_off,
            !m.sleeping,
            m.armed_at_ms == 0,
            m.last_activity_ms == now,
    {
        IdleManager {
            display_off_ms: 0,
            sleep_ms: 0,
            sleep_command: None,
            inhibited: false,
            displays_off: false,
            sleeping: false,
            armed_at_ms: 0,
            last_activity_ms: now,
        }
    }

    /// Arm (or disarm, when inhibited or unconfigured) both timers from
    /// `now`. Throttled to once per `REARM_MIN_MS` unless `force`: returns
    /// `None` when it does nothing.
    pub fn rearm(&mut self, now: u64, force: bool) -> (r: Option<TimerArm>)
        requires
            old(self).wf(),
        ensures
            final(self).wf(),
            if !force && now - old(self).armed_at_ms < REARM_MIN_MS {
                &&& r is None
                &&& *final(self) == *old(self)
            } else {
                &&& r == Some(old(self).arm_for())
                &&& *final(self) == (IdleManager { armed_at_ms: now, ..*old(self) })
            },
    {
        let since = if now >= self.armed_at_ms {
            now - self.armed_at_ms
        } else {
            0
        };
        if !force && since < REARM_MIN_MS {
            return None;
        }
        self.armed_at_ms = now;
        let active = !self.inhibited;
        let display_ms = if active {
            self.display_off_ms
        } else {
            0
        };
        let sleep_ms = if active {
            self.sleep_ms
        } else {
            0
        };
        Some(
            TimerArm {
                display_ms: if display_ms > 0x7fff_ffff {
                    0x7fff_ffff
                } else {
                    display_ms as i32
                },
                sleep_ms: if sleep_ms > 0x7fff_ffff {
                    0x7fff_ffff
                } else {
                    sleep_ms as i32
                },
            },
        )
    }

    /// Apply an `idle { }` block: negative timeouts count as 0; re-arms
    /// both timers.
    pub fn configure(&mut self, cfg: &IdleConfig, now: u64) -> (r: TimerArm)
        requires
            old(self).wf(),
            seconds_fit(cfg.display_off_s),
            seconds_fit(cfg.sleep_s),
        ensures
            final(self).wf(),
            final(self).display_off_ms == ms_of(cfg.display_off_s),
            final(self).sleep_ms == ms_of(cfg.sleep_s),
            final(self).sleep_command == cfg.sleep_command,
            final(self).inhibited == old(self).inhibited,
            final(self).displays_off == old(self).displays_off,
            final(self).sleeping == old(self).sleeping,
            final(self).last_activity_ms == old(self).last_activity_ms,
            final(self).armed_at_ms == now,
            r == final(self).arm_for(),
    {
        self.display_off_ms = if cfg.display_off_s > 0 {
            cfg.display_off_s * 1000
        } else {
            0
        };
        self.sleep_ms = if cfg.sleep_s > 0 {
            cfg.sleep_s * 1000
        } else {
            0
        };
        self.sleep_command = cfg.sleep_command.clone();
        let r = self.rearm(now, true);
        r.unwrap()
    }

    pub open spec fn sleep_command_spec(&self) -> Seq<char> {
        match self.sleep_command {
            Some(c) => c@,
            None => default_sleep_command(),
        }
    }

    /// The command the sleep timeout runs.
    pub fn sleep_command(&self) -> (r: &str)
        ensures
            r@ == self.sleep_command_spec(),
    {
        match &self.sleep_command {
            Some(c) => c.as_str(),
            None => "systemctl suspend",
        }
    }

    /// Record whether the outputs are darkened by the idle timeout; the
    /// outputs themselves are switched by `switch_outputs`.
    pub fn set_displays(&mut self, on: bool)
        ensures
            *final(self) == (IdleManager { displays_off: !on, ..*old(self) }),
    {
        self.displays_off = !on;
    }

    /// Input arrived (or the session came back) at `now`: wakes darkened
    /// outputs, ends a sleep, and restarts both countdowns (forced when
    /// anything was dark or asleep, throttled otherwise).
    pub fn on_activity(&mut self, now: u64) -> (e: IdleEffect)
        requires
            old(self).wf(),
        ensures
            final(self).wf(),
            final(self).last_activity_ms == now,
            !final(self).displays_off,
            !final(self).sleeping,
            final(self).inhibited == old(self).inhibited,
            final(self).display_off_ms == old(self).display_off_ms,
            final(self).sleep_ms == old(self).sleep_ms,
            final(self).sleep_command == old(self).sleep_command,
            e.displays == (if old(self).displays_off {
                Some(true)
            } else {
                None
            }),
            !e.spawn_sleep,
            ({
                let forced = old(self).displays_off || old(self).sleeping;
                if !forced && now - old(self).armed_at_ms < REARM_MIN_MS {
                    e.arm is None && final(self).armed_at_ms == old(self).armed_at_ms
                } else {
                    e.arm == Some(old(self).arm_for()) && final(self).armed_at_ms == now
                }
            }),
    {
        self.last_activity_ms = now;
        let changed = self.displays_off || self.sleeping;
        let displays = if self.displays_off {
            self.set_displays(true);
            Some(true)
        } else {
            None
        };
        self.sleeping = false;
        let arm = self.rearm(now, changed);
        IdleEffect { displays, spawn_sleep: false, arm }
    }

    /// An inhibitor appeared or the last one went away. A change re-arms
    /// (or disarms) both timers; no change does nothing.
    pub fn set_inhibited(&mut self, inhibited: bool, now: u64) -> (r: Option<TimerArm>)
        requires
            old(self).wf(),
        ensures
            final(self).wf(),
            old(self).inhibited == inhibited ==> r is None && *final(self) == *old(self),
            old(self).inhibited != inhibited ==> {
                &&& *final(self) == (IdleManager {
                    inhibited,
                    armed_at_ms: now,
                    ..*old(self)
                })
                &&& r == Some(final(self).arm_for())
            },
    {
        if self.inhibited == inhibited {
            return None;
        }
        self.inhibited = inhibited;
        self.rearm(now, true)
    }

    /// The display timer fired: darken the outputs unless inhibited or
    /// already dark.
    pub fn display_timeout(&mut self) -> (darken: bool)
        ensures
            darken == (!old(self).inhibited && !old(self).displays_off),
            darken ==> *final(self) == (IdleManager { displays_off: true, ..*old(self) }),
            !darken ==> *final(self) == *old(self),
    {
        if !self.inhibited && !self.displays_off {
            self.set_displays(false);
            true
        } else {
            false
        }
    }

    /// Mark the sleep command as started (it is run by the caller).
    pub fn begin_sleep(&mut self)
        ensures
            *final(self) == (IdleManager { sleeping: true, ..*old(self) }),
    {
        self.sleeping = true;
    }

    /// The sleep command could not be started.
    pub fn sleep_failed(&mut self)
        ensures
            *final(self) == (IdleManager { sleeping: false, ..*old(self) }),
    {
        self.sleeping = false;
    }

    /// The sleep timer fired: sleep unless inhibited or already asleep.
    pub fn sleep_timeout(&mut self) -> (sleep: bool)
        ensures
            sleep == (!old(self).inhibited && !old(self).sleeping),
            sleep ==> *final(self) == (IdleManager { sleeping: true, ..*old(self) }),
            !sleep ==> *final(self) == *old(self),
    {
        if !self.inhibited && !self.sleeping {
            self.begin_sleep();
            true
        } else {
            false
        }
    }

    /// The `ccectl idle` report, given the current time.
    pub open spec fn status_text(&self, now: u64) -> Seq<char> {
        let idle_s = (if now >= self.last_activity_ms {
            now - self.last_activity_ms
        } else {
            0
        }) / 1000;
        "display_off="@ + dec_int(self.display_off_ms / 1000) + "s sleep="@ + dec_int(
            self.sleep_ms / 1000,
        ) + "s command="@ + debug_quoted(self.sleep_command_spec()) + " idle="@ + dec_digits(
            idle_s as nat,
        ) + "s inhibited="@ + bool_text(self.inhibited) + " displays_off="@ + bool_text(
            self.displays_off,
        ) + " sleeping="@ + bool_text(self.sleeping) + "\n"@
    }

    /// `ccectl idle` report.
    pub fn status(&self, now: u64) -> (r: String)
        requires
            self.wf(),
        ensures
            r@ == self.status_text(now),
    {
        let idle_ms = if now >= self.last_activity_ms {
            now - self.last_activity_ms
        } else {
            0
        };
        let mut out = String::new();
        push_str(&mut out, "display_off=");
        push_chars(&mut out, &i64_to_dec(self.display_off_ms / 1000));
        push_str(&mut out, "s sleep=");
        push_chars(&mut out, &i64_to_dec(self.sleep_ms / 1000));
        push_str(&mut out, "s command=");
        let quoted = debug_quote(self.sleep_command());
        push_str(&mut out, quoted.as_str());
        push_str(&mut out, " idle=");
        push_chars(&mut out, &u64_to_dec(idle_ms / 1000));
        push_str(&mut out, "s inhibited=");
        push_str(&mut out, bool_str(self.inhibited));
        push_str(&mut out, " displays_off=");
        push_str(&mut out, bool_str(self.displays_off));
        push_str(&mut out, " sleeping=");
        push_str(&mut out, bool_str(self.sleeping));
        push_str(&mut out, "\n");
        out
    }
}

/// How `bool` displays.
pub open spec fn bool_text(b: bool) -> Seq<char> {
    if b {
        "true"@
    } else {
        "false"@
    }
}

pub fn bool_str(b: bool) -> (r: &'static str)
    ensures
        r@ == bool_text(b),
{
    if b {
        "true"
    } else {
        "false"
    }
}

/// What one output does when the displays are switched: switching on wakes
/// only an output the idle timeout darkened (and only if it is still soft
/// disabled); switching off darkens every enabled output. Returns the new
/// `idle_off` mark, the new state, and whether the output was touched.
pub open spec fn power_step(on: bool, idle_off: bool, state: OutputPower) -> (bool, OutputPower, bool) {
    if on {
        if idle_off {
            if state == OutputPower::DisabledSoft {
                (false, OutputPower::Enabled, true)
            } else {
                (false, state, false)
            }
        } else {
            (idle_off, state, false)
        }
    } else if state == OutputPower::Enabled {
        (true, OutputPower::DisabledSoft, true)
    } else {
        (idle_off, state, false)
    }
}

/// One output's step when the displays are switched (see `power_step`).
pub fn output_power_step(on: bool, idle_off: bool, state: OutputPower) -> (r: (
    bool,
    OutputPower,
    bool,
))
    ensures
        r == power_step(on, idle_off, state),
{
    if on {
        if idle_off {
            if state == OutputPower::DisabledSoft {
                (false, OutputPower::Enabled, true)
            } else {
                (false, state, false)
            }
        } else {
            (idle_off, state, false)
        }
    } else if state == OutputPower::Enabled {
        (true, OutputPower::DisabledSoft, true)
    } else {
        (idle_off, state, false)
    }
}

/// How many outputs a switch touches (see `power_step`).
pub open spec fn touched_count(on: bool, outputs: Seq<(bool, OutputPower)>) -> nat
    decreases outputs.len(),
{
    if outputs.len() == 0 {
        0
    } else {
        touched_count(on, outputs.drop_last()) + if power_step(
            on,
            outputs.last().0,
            outputs.last().1,
        ).2 {
            1nat
        } else {
            0nat
        }
    }
}

/// Switches the displays off (`on == false`: every enabled output goes soft
/// off and is marked as darkened by the idle timeout) or on (the outputs
/// the idle timeout darkened lose the mark and, if still soft off, come
/// back on). `outputs` holds each live output's mark and scheduled state;
/// returns how many outputs changed state.
pub fn switch_outputs(on: bool, outputs: &mut Vec<(bool, OutputPower)>) -> (touched: usize)
    ensures
        final(outputs)@.len() == old(outputs)@.len(),
        forall|i: int|
            0 <= i < old(outputs)@.len() ==> {
                let (o, s, _) = power_step(on, old(outputs)@[i].0, old(outputs)@[i].1);
                #[trigger] final(outputs)@[i] == (o, s)
            },
        touched == touched_count(on, old(outputs)@),
{
    let ghost orig = outputs@;
    let mut touched: usize = 0;
    let mut i: usize = 0;
    assert(orig.take(0) =~= Seq::<(bool, OutputPower)>::empty());
    while i < outputs.len()
        invariant
            i <= outputs@.len() == orig.len(),
            forall|j: int|
                0 <= j < i ==> {
                    let (o, s, _) = power_step(on, orig[j].0, orig[j].1);
                    #[trigger] outputs@[j] == (o, s)
                },
            forall|j: int| i <= j < orig.len() ==> #[trigger] outputs@[j] == orig[j],
            touched == touched_count(on, orig.take(i as int)),
            touched <= i,
        decreases orig.len() - i,
    {
        let (mark, state) = outputs[i];
        let (o, s, t) = output_power_step(on, mark, state);
        outputs.set(i, (o, s));
        assert(orig.take(i + 1).drop_last() =~= orig.take(i as int));
        assert(orig.take(i + 1).last() == orig[i as int]);
        if t {
            touched = touched + 1;
        }
        i = i + 1;
    }
    assert(orig.take(orig.len() as int) =~= orig);
    touched
}

/// Switching the displays off and then on again leaves an output that the
/// idle timeout had not darkened as it was, and clears its mark.
pub proof fn lemma_output_power_round_trip(idle_off: bool, state: OutputPower)
    requires
        !idle_off,
    ensures
        ({
            let (o1, s1, _) = power_step(false, idle_off, state);
            let (o2, s2, _) = power_step(true, o1, s1);
            !o2 && s2 == state
        }),
{
}

#[derive(Debug, Clone, Copy, PartialEq, Eq, Structural)]
pub enum IdleCommand {
    Status,
    Wake,
    DisplayOff,
    DisplayOn,
    Sleep,
    Timeouts(i64, i64),
    BadTimeouts,
    Usage,
}

pub open spec fn idle_command_of(args: Seq<Seq<char>>) -> IdleCommand {
    if args.len() == 0 || (args.len() == 1 && args[0] == "status"@) {
        IdleCommand::Status
    } else if args.len() == 1 && args[0] == "wake"@ {
        IdleCommand::Wake
    } else if args.len() == 2 && args[0] == "display"@ && args[1] == "off"@ {
        IdleCommand::DisplayOff
    } else if args.len() == 2 && args[0] == "display"@ && args[1] == "on"@ {
        IdleCommand::DisplayOn
    } else if args.len() == 1 && args[0] == "sleep"@ {
        IdleCommand::Sleep
    } else if args.len() == 3 && args[0] == "timeouts"@ {
        match (parse_i64_dec(args[1]), parse_i64_dec(args[2])) {
            (Some(d), Some(s)) => if d >= 0 && s >= 0 {
                IdleCommand::Timeouts(d, s)
            } else {
                IdleCommand::BadTimeouts
            },
            _ => IdleCommand::BadTimeouts,
        }
    } else {
        IdleCommand::Usage
    }
}

/// `idle timeouts <d> <s>` with any two non-negative decimal numbers sets
/// exactly those timeouts, a 0 among them (that timer off) included; and a
/// timeouts command is only ever taken with non-negative figures.
pub proof fn lemma_timeouts_take_any_non_negative_figures(d: i64, s: i64)
    requires
        d >= 0,
        s >= 0,
    ensures
        idle_command_of(seq!["timeouts"@, dec_digits(d as nat), dec_digits(s as nat)])
            == IdleCommand::Timeouts(d, s),
        forall|args: Seq<Seq<char>>, a: i64, b: i64|
            idle_command_of(args) == IdleCommand::Timeouts(a, b) ==> a >= 0 && b >= 0,
{
    lemma_parse_dec_round_trip(d);
    lemma_parse_dec_round_trip(s);
}

pub open spec fn views_of(args: Seq<String>) -> Seq<Seq<char>> {
    args.map_values(|a: String| a@)
}

/// Reads the words after `idle` on the control socket.
pub fn parse_idle_command(args: &Vec<String>) -> (c: IdleCommand)
    ensures
        c == idle_command_of(views_of(args@)),
{
    let ghost a = views_of(args@);
    let n = args.len();
    if n == 0 {
        return IdleCommand::Status;
    }
    let w0 = chars_of(args[0].as_str());
    assert(a[0] == w0@);
    if n == 1 && chars_eq_str(&w0, "status") {
        return IdleCommand::Status;
    }
    if n == 1 && chars_eq_str(&w0, "wake") {
        return IdleCommand::Wake;
    }
    if n == 2 && chars_eq_str(&w0, "display") {
        let w1 = chars_of(args[1].as_str());
        assert(a[1] == w1@);
        if chars_eq_str(&w1, "off") {
            return IdleCommand::DisplayOff;
        }
        if chars_eq_str(&w1, "on") {
            return IdleCommand::DisplayOn;
        }
        return IdleCommand::Usage;
    }
    if n == 1 && chars_eq_str(&w0, "sleep") {
        return IdleCommand::Sleep;
    }
    if n == 3 && chars_eq_str(&w0, "timeouts") {
        let w1 = chars_of(args[1].as_str());
        let w2 = chars_of(args[2].as_str());
        assert(a[1] == w1@);
        assert(a[2] == w2@);
        return match (parse_i64_chars(&w1), parse_i64_chars(&w2)) {
            (Some(d), Some(s)) => if d >= 0 && s >= 0 {
                IdleCommand::Timeouts(d, s)
            } else {
                IdleCommand::BadTimeouts
            },
            _ => IdleCommand::BadTimeouts,
        };
    }
    IdleCommand::Usage
}

pub open spec fn usage_text() -> Seq<char> {
    "error: usage: idle [status|wake|display on|display off|sleep|timeouts <display_off_s> <sleep_s>]\n"@
}

pub open spec fn bad_timeouts_text() -> Seq<char> {
    "error: idle timeouts <display_off_s> <sleep_s> (non-negative seconds, 0 = off)\n"@
}

impl IdleManager {
    /// `ccectl idle …`: applies the command to the state and says what
    /// outside work it needs; the reply is the status report, `ok`, or the
    /// usage error.
    pub fn ipc(&mut self, args: &Vec<String>, now: u64) -> (r: (String, IdleEffect))
        requires
            old(self).wf(),
            idle_command_of(views_of(args@)) matches IdleCommand::Timeouts(d, s) ==> seconds_fit(
                d,
            ) && seconds_fit(s),
        ensures
            final(self).wf(),
            match idle_command_of(views_of(args@)) {
                IdleCommand::Status => r.0@ == old(self).status_text(now) && *final(self)
                    == *old(self) && r.1 == (IdleEffect {
                    displays: None,
                    spawn_sleep: false,
                    arm: None,
                }),
                IdleCommand::Wake => r.0@ == "ok\n"@ && !final(self).displays_off
                    && !final(self).sleeping && final(self).last_activity_ms == now
                    && final(self).inhibited == old(self).inhibited && final(self).display_off_ms
                    == old(self).display_off_ms && final(self).sleep_ms == old(self).sleep_ms
                    && final(self).sleep_command == old(self).sleep_command && r.1.displays == (
                if old(self).displays_off {
                    Some(true)
                } else {
                    None
                }) && !r.1.spawn_sleep && ({
                    let forced = old(self).displays_off || old(self).sleeping;
                    if !forced && now - old(self).armed_at_ms < REARM_MIN_MS {
                        r.1.arm is None && final(self).armed_at_ms == old(self).armed_at_ms
                    } else {
                        r.1.arm == Some(old(self).arm_for()) && final(self).armed_at_ms == now
                    }
                }),
                IdleCommand::DisplayOff => r.0@ == "ok\n"@ && *final(self) == (IdleManager {
                    displays_off: true,
                    ..*old(self)
                }) && r.1 == (IdleEffect { displays: Some(false), spawn_sleep: false, arm: None }),
                IdleCommand::DisplayOn => r.0@ == "ok\n"@ && *final(self) == (IdleManager {
                    displays_off: false,
                    ..*old(self)
                }) && r.1 == (IdleEffect { displays: Some(true), spawn_sleep: false, arm: None }),
                IdleCommand::Sleep => r.0@ == "ok\n"@ && *final(self) == (IdleManager {
                    sleeping: true,
                    ..*old(self)
                }) && r.1 == (IdleEffect { displays: None, spawn_sleep: true, arm: None }),
                IdleCommand::Timeouts(d, s) => r.0@ == "ok\n"@ && final(self).display_off_ms
                    == ms_of(d) && final(self).sleep_ms == ms_of(s) && final(self).sleep_command
                    == old(self).sleep_command && r.1.arm == Some(final(self).arm_for())
                    && r.1.displays is None && !r.1.spawn_sleep && final(self).inhibited == old(
                    self,
                ).inhibited && final(self).displays_off == old(self).displays_off
                    && final(self).sleeping == old(self).sleeping && final(self).last_activity_ms
                    == old(self).last_activity_ms && final(self).armed_at_ms == now,
                IdleCommand::BadTimeouts => r.0@ == bad_timeouts_text() && *final(self)
                    == *old(self) && r.1 == (IdleEffect { displays: None, spawn_sleep: false, arm: None }),
                IdleCommand::Usage => r.0@ == usage_text() && *final(self) == *old(self) && r.1 == (
                IdleEffect { displays: None, spawn_sleep: false, arm: None }),
            },
    {
        let none = IdleEffect { displays: None, spawn_sleep: false, arm: None };
        let ok = String::from_str("ok\n");
        match parse_idle_command(args) {
            IdleCommand::Status => (self.status(now), none),
            IdleCommand::Wake => {
                let e = self.on_activity(now);
                (ok, e)
            },
            IdleCommand::DisplayOff => {
                self.set_displays(false);
                (ok, IdleEffect { displays: Some(false), spawn_sleep: false, arm: None })
            },
            IdleCommand::DisplayOn => {
                self.set_displays(true);
                (ok, IdleEffect { displays: Some(true), spawn_sleep: false, arm: None })
            },
            IdleCommand::Sleep => {
                self.begin_sleep();
                (ok, IdleEffect { displays: None, spawn_sleep: true, arm: None })
            },
            IdleCommand::Timeouts(d, s) => {
                let cfg = IdleConfig {
                    display_off_s: d,
                    sleep_s: s,
                    sleep_command: self.sleep_command.clone(),
                };
                let arm = self.configure(&cfg, now);
                (ok, IdleEffect { displays: None, spawn_sleep: false, arm: Some(arm) })
            },
            IdleCommand::BadTimeouts => (String::from_str(
                "error: idle timeouts <display_off_s> <sleep_s> (non-negative seconds, 0 = off)\n",
            ), none),
            IdleCommand::Usage => (String::from_str(
                "error: usage: idle [status|wake|display on|display off|sleep|timeouts <display_off_s> <sleep_s>]\n",
            ), none),
        }
    }
}

} // verus!
