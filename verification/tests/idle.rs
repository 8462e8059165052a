use cce_fx::idle::{
    output_power_step, parse_idle_command, switch_outputs, IdleCommand, IdleConfig, IdleEffect, IdleManager,
    OutputPower, TimerArm,
};

fn words(w: &[&str]) -> Vec<String> {
    w.iter().map(|s| s.to_string()).collect()
}

fn configured(now: u64) -> IdleManager {
    let mut m = IdleManager::new(0);
    let cfg = IdleConfig { display_off_s: 300, sleep_s: 900, sleep_command: None };
    let arm = m.configure(&cfg, now);
    assert_eq!(arm, TimerArm { display_ms: 300_000, sleep_ms: 900_000 });
    m
}

#[test]
fn configuring_sets_milliseconds_and_arms() {
    let m = configured(5_000);
    assert_eq!(m.display_off_ms, 300_000);
    assert_eq!(m.sleep_ms, 900_000);
    assert_eq!(m.armed_at_ms, 5_000);
    assert_eq!(m.sleep_command(), "systemctl suspend");
    let mut m = IdleManager::new(0);
    let cfg = IdleConfig { display_off_s: -4, sleep_s: 3_000_000, sleep_command: Some("zzz".to_string()) };
    let arm = m.configure(&cfg, 0);
    assert_eq!(m.display_off_ms, 0, "a negative timeout is off");
    assert_eq!(arm, TimerArm { display_ms: 0, sleep_ms: i32::MAX }, "the timer saturates");
    assert_eq!(m.sleep_command(), "zzz");
}

#[test]
fn activity_rearms_at_most_once_a_second_unless_something_changed() {
    let mut m = configured(10_000);
    let e = m.on_activity(10_500);
    assert_eq!(e, IdleEffect { displays: None, spawn_sleep: false, arm: None });
    assert_eq!(m.last_activity_ms, 10_500);
    let e = m.on_activity(11_000);
    assert_eq!(e.arm, Some(TimerArm { display_ms: 300_000, sleep_ms: 900_000 }));
    assert!(m.display_timeout());
    assert!(!m.display_timeout(), "already dark");
    let e = m.on_activity(11_001);
    assert_eq!(e.displays, Some(true), "activity wakes the displays");
    assert!(e.arm.is_some(), "and re-arms at once");
    assert!(!m.displays_off);
}

#[test]
fn inhibition_holds_the_timers() {
    let mut m = configured(0);
    assert_eq!(m.set_inhibited(true, 50), Some(TimerArm { display_ms: 0, sleep_ms: 0 }));
    assert_eq!(m.set_inhibited(true, 60), None);
    assert!(!m.display_timeout());
    assert!(!m.sleep_timeout());
    assert_eq!(m.set_inhibited(false, 70), Some(TimerArm { display_ms: 300_000, sleep_ms: 900_000 }));
    assert!(m.sleep_timeout());
    assert!(m.sleeping);
    assert!(!m.sleep_timeout(), "already asleep");
    m.sleep_failed();
    assert!(!m.sleeping);
}

#[test]
fn status_report() {
    let mut m = configured(0);
    m.on_activity(2_000);
    assert_eq!(
        m.status(65_500),
        "display_off=300s sleep=900s command=\"systemctl suspend\" idle=63s inhibited=false displays_off=false sleeping=false\n"
    );
}

#[test]
fn idle_commands_parse() {
    assert_eq!(parse_idle_command(&words(&[])), IdleCommand::Status);
    assert_eq!(parse_idle_command(&words(&["status"])), IdleCommand::Status);
    assert_eq!(parse_idle_command(&words(&["wake"])), IdleCommand::Wake);
    assert_eq!(parse_idle_command(&words(&["display", "off"])), IdleCommand::DisplayOff);
    assert_eq!(parse_idle_command(&words(&["display", "on"])), IdleCommand::DisplayOn);
    assert_eq!(parse_idle_command(&words(&["display", "dim"])), IdleCommand::Usage);
    assert_eq!(parse_idle_command(&words(&["sleep"])), IdleCommand::Sleep);
    assert_eq!(parse_idle_command(&words(&["timeouts", "60", "+120"])), IdleCommand::Timeouts(60, 120));
    assert_eq!(parse_idle_command(&words(&["timeouts", "-1", "5"])), IdleCommand::BadTimeouts);
    assert_eq!(parse_idle_command(&words(&["timeouts", "x", "5"])), IdleCommand::BadTimeouts);
    assert_eq!(parse_idle_command(&words(&["nap"])), IdleCommand::Usage);
}

#[test]
fn idle_ipc_replies_and_effects() {
    let mut m = configured(0);
    let (r, e) = m.ipc(&words(&["display", "off"]), 100);
    assert_eq!(r, "ok\n");
    assert_eq!(e.displays, Some(false));
    assert!(m.displays_off);
    let (r, e) = m.ipc(&words(&["sleep"]), 100);
    assert_eq!(r, "ok\n");
    assert!(e.spawn_sleep && m.sleeping);
    let (r, e) = m.ipc(&words(&["timeouts", "10", "0"]), 5_000);
    assert_eq!(r, "ok\n");
    assert_eq!(e.arm, Some(TimerArm { display_ms: 10_000, sleep_ms: 0 }));
    let (r, _) = m.ipc(&words(&["timeouts", "10"]), 5_000);
    assert!(r.starts_with("error: usage: idle"));
    let (r, _) = m.ipc(&words(&["timeouts", "-3", "0"]), 5_000);
    assert_eq!(r, "error: idle timeouts <display_off_s> <sleep_s> (non-negative seconds, 0 = off)\n");
    let (r, e) = m.ipc(&words(&["wake"]), 9_000);
    assert_eq!(r, "ok\n");
    assert_eq!(e.displays, Some(true));
    assert!(!m.sleeping && !m.displays_off);
}

#[test]
fn output_power_steps() {
    assert_eq!(output_power_step(false, false, OutputPower::Enabled), (true, OutputPower::DisabledSoft, true));
    assert_eq!(output_power_step(true, true, OutputPower::DisabledSoft), (false, OutputPower::Enabled, true));
    assert_eq!(output_power_step(true, false, OutputPower::DisabledSoft), (false, OutputPower::DisabledSoft, false));
    assert_eq!(output_power_step(false, false, OutputPower::Disabled), (false, OutputPower::Disabled, false));
    assert_eq!(output_power_step(true, true, OutputPower::Disabled), (false, OutputPower::Disabled, false));
}

#[test]
fn switching_outputs_off_and_on() {
    let mut outs = vec![
        (false, OutputPower::Enabled),
        (false, OutputPower::Disabled),
        (false, OutputPower::DisabledSoft),
        (false, OutputPower::Enabled),
    ];
    assert_eq!(switch_outputs(false, &mut outs), 2);
    assert_eq!(
        outs,
        vec![
            (true, OutputPower::DisabledSoft),
            (false, OutputPower::Disabled),
            (false, OutputPower::DisabledSoft),
            (true, OutputPower::DisabledSoft),
        ]
    );
    outs[3].1 = OutputPower::Disabled;
    assert_eq!(switch_outputs(true, &mut outs), 1);
    assert_eq!(
        outs,
        vec![
            (false, OutputPower::Enabled),
            (false, OutputPower::Disabled),
            (false, OutputPower::DisabledSoft),
            (false, OutputPower::Disabled),
        ],
        "an output soft-disabled by something else stays off"
    );
}
