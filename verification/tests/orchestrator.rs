use light_control::command::{
    build_invocation, cmd_args, mask_args, DeviceCommand, FailureDetail,
};
use light_control::config::{ConfigError, DeviceCredentials};
use light_control::router::{action_operation, parse_interaction, response_text, ButtonAction};
use light_control::schedule::scheduled_jobs;
use light_control::surface::{channels_to_delete, ControlSurfaceRef, GuildChannel};
use light_control::text::u32_to_dec;
use light_control::transitions::{plan, OpSession, Operation};

fn strings(v: &[&str]) -> Vec<String> {
    v.iter().map(|s| s.to_string()).collect()
}

#[test]
fn masks_username_and_password_tokens() {
    let args = strings(&["--username", "alice", "--PASSWORD", "on"]);
    let masked = mask_args(&args);
    assert_eq!(masked, strings(&["[MASKED]", "alice", "[MASKED]", "on"]));
}

#[test]
fn masks_case_insensitively_and_inside_tokens() {
    let args = strings(&["xUserNamEx", "PassWord=hunter2", "USERNAME"]);
    let masked = mask_args(&args);
    assert_eq!(masked, strings(&["[MASKED]", "[MASKED]", "[MASKED]"]));
}

#[test]
fn masks_token_with_trailing_match() {
    let args = strings(&["abcPASSWORD", "kasausername"]);
    assert_eq!(mask_args(&args), strings(&["[MASKED]", "[MASKED]"]));
}

#[test]
fn masks_no_other_token() {
    let args = strings(&[
        "on",
        "feature",
        "auto_off_minutes",
        "30",
        "user",
        "passwort",
        "usernam",
        "--host",
        "",
    ]);
    let masked = mask_args(&args);
    assert_eq!(masked, args);
}

#[test]
fn masks_empty_argument_list() {
    let args: Vec<String> = Vec::new();
    assert_eq!(mask_args(&args), args);
}

#[test]
fn decimal_rendering_exact() {
    assert_eq!(u32_to_dec(0), "0");
    assert_eq!(u32_to_dec(7), "7");
    assert_eq!(u32_to_dec(15), "15");
    assert_eq!(u32_to_dec(30), "30");
    assert_eq!(u32_to_dec(60), "60");
    assert_eq!(u32_to_dec(12345), "12345");
    assert_eq!(u32_to_dec(u32::MAX), "4294967295");
}

#[test]
fn timed_on_plan_order() {
    let p = plan(&Operation::TurnOnTimed(30));
    assert_eq!(
        p,
        vec![
            DeviceCommand::On,
            DeviceCommand::SetAutoOffMinutes(30),
            DeviceCommand::SetAutoOffEnabled(true),
        ]
    );
    let rendered: Vec<Vec<String>> = p.iter().map(cmd_args).collect();
    assert_eq!(
        rendered,
        vec![
            strings(&["on"]),
            strings(&["feature", "auto_off_minutes", "30"]),
            strings(&["feature", "auto_off_enabled", "True"]),
        ]
    );
}

#[test]
fn plain_on_and_off_plans() {
    let on = plan(&Operation::TurnOnPlain);
    let rendered: Vec<Vec<String>> = on.iter().map(cmd_args).collect();
    assert_eq!(
        rendered,
        vec![strings(&["on"]), strings(&["feature", "auto_off_enabled", "False"])]
    );
    let off = plan(&Operation::TurnOff);
    let rendered: Vec<Vec<String>> = off.iter().map(cmd_args).collect();
    assert_eq!(rendered, vec![strings(&["off"])]);
}

#[test]
fn set_auto_off_orders_minutes_first() {
    let p = plan(&Operation::SetAutoOff(true, Some(45)));
    let rendered: Vec<Vec<String>> = p.iter().map(cmd_args).collect();
    assert_eq!(
        rendered,
        vec![
            strings(&["feature", "auto_off_minutes", "45"]),
            strings(&["feature", "auto_off_enabled", "True"]),
        ]
    );
    let p = plan(&Operation::SetAutoOff(false, None));
    let rendered: Vec<Vec<String>> = p.iter().map(cmd_args).collect();
    assert_eq!(rendered, vec![strings(&["feature", "auto_off_enabled", "False"])]);
}

#[test]
fn session_success_runs_whole_plan() {
    let mut s = OpSession::new(&Operation::TurnOnTimed(15));
    let mut issued: Vec<Vec<String>> = Vec::new();
    while let Some(c) = s.next_command() {
        issued.push(cmd_args(&c));
        s.record(Ok(()));
    }
    assert_eq!(
        issued,
        vec![
            strings(&["on"]),
            strings(&["feature", "auto_off_minutes", "15"]),
            strings(&["feature", "auto_off_enabled", "True"]),
        ]
    );
    assert!(s.into_outcome().is_ok());
}

#[test]
fn always_failing_executor_stops_after_one_attempt() {
    let mut s = OpSession::new(&Operation::TurnOnTimed(30));
    let mut attempts = 0;
    while let Some(_c) = s.next_command() {
        attempts += 1;
        s.record(Err(FailureDetail::CommandFailed("boom".to_string())));
    }
    assert_eq!(attempts, 1);
    let a = parse_interaction("light_on_30");
    let outcome = s.into_outcome();
    assert!(matches!(outcome, Err(FailureDetail::CommandFailed(ref e)) if e == "boom"));
    assert_eq!(response_text(&a, outcome.is_ok()), "Failed to set timed light");
}

#[test]
fn minutes_step_failure_never_issues_enable() {
    let mut s = OpSession::new(&Operation::TurnOnTimed(30));
    let mut issued: Vec<Vec<String>> = Vec::new();
    while let Some(c) = s.next_command() {
        issued.push(cmd_args(&c));
        if issued.len() == 1 {
            s.record(Ok(()));
        } else {
            s.record(Err(FailureDetail::CommandFailed("bad minutes".to_string())));
        }
    }
    assert_eq!(
        issued,
        vec![strings(&["on"]), strings(&["feature", "auto_off_minutes", "30"])]
    );
    assert!(s.into_outcome().is_err());
}

#[test]
fn launch_failure_is_propagated_verbatim() {
    let mut s = OpSession::new(&Operation::TurnOff);
    let c = s.next_command().unwrap();
    assert_eq!(cmd_args(&c), strings(&["off"]));
    s.record(Err(FailureDetail::Invocation("no such tool".to_string())));
    assert!(s.next_command().is_none());
    assert!(matches!(
        s.into_outcome(),
        Err(FailureDetail::Invocation(ref e)) if e == "no such tool"
    ));
}

#[test]
fn light_on_interaction_texts() {
    let a = parse_interaction("light_on");
    assert!(matches!(a, ButtonAction::TurnOn));
    let op = action_operation(&a).unwrap();
    let mut s = OpSession::new(&op);
    while let Some(_c) = s.next_command() {
        s.record(Ok(()));
    }
    assert!(s.into_outcome().is_ok());
    assert_eq!(response_text(&a, true), "Light turned on!");
    assert_eq!(response_text(&a, false), "Failed to turn on light");
}

#[test]
fn light_off_interaction_texts() {
    let a = parse_interaction("light_off");
    assert!(matches!(a, ButtonAction::TurnOff));
    assert_eq!(action_operation(&a), Some(Operation::TurnOff));
    assert_eq!(response_text(&a, true), "Light turned off!");
    assert_eq!(response_text(&a, false), "Failed to turn off light");
}

#[test]
fn timed_interaction_texts() {
    for (id, minutes) in [("light_on_15", 15u32), ("light_on_30", 30), ("light_on_60", 60)] {
        let a = parse_interaction(id);
        assert_eq!(a, ButtonAction::TurnOnTimed(minutes));
        assert_eq!(action_operation(&a), Some(Operation::TurnOnTimed(minutes)));
        assert_eq!(
            response_text(&a, true),
            format!("Light turned on for {} minutes!", minutes)
        );
        assert_eq!(response_text(&a, false), "Failed to set timed light");
    }
}

#[test]
fn unknown_interaction_issues_no_command() {
    let a = parse_interaction("nonsense");
    assert!(matches!(a, ButtonAction::Unknown));
    assert!(action_operation(&a).is_none());
    assert_eq!(response_text(&a, true), "Unknown button");
    assert_eq!(response_text(&a, false), "Unknown button");
}

#[test]
fn rebuild_deletes_every_same_named_channel() {
    let chans = vec![
        GuildChannel { id: 1, name: "general".to_string() },
        GuildChannel { id: 2, name: "light-controls".to_string() },
        GuildChannel { id: 3, name: "random".to_string() },
        GuildChannel { id: 4, name: "light-controls".to_string() },
    ];
    assert_eq!(channels_to_delete(&chans), vec![2, 4]);
}

#[test]
fn rebuild_with_no_preexisting_surface() {
    let chans = vec![GuildChannel { id: 1, name: "general".to_string() }];
    assert_eq!(channels_to_delete(&chans), Vec::<u64>::new());
    let empty: Vec<GuildChannel> = Vec::new();
    assert_eq!(channels_to_delete(&empty), Vec::<u64>::new());
}

#[test]
fn surface_reference_points_at_latest_rebuild() {
    let mut r = ControlSurfaceRef::new();
    assert!(r.get().is_none());
    r.set(99);
    assert_eq!(r.get(), Some(99));
    r.set(123);
    assert_eq!(r.get(), Some(123));
}

#[test]
fn job_table_is_midnight_off_and_evening_on() {
    let jobs = scheduled_jobs();
    assert_eq!(jobs.len(), 2);
    assert_eq!(jobs[0].cron, "0 0 0 * * *");
    assert_eq!(jobs[0].op, Operation::TurnOff);
    assert_eq!(jobs[1].cron, "0 0 17 * * *");
    assert_eq!(jobs[1].op, Operation::TurnOnPlain);
}

#[test]
fn concurrent_off_paths_are_independent() {
    let jobs = scheduled_jobs();
    let midnight_plan = plan(&jobs[0].op);
    let a = parse_interaction("light_off");
    let manual_op = action_operation(&a).unwrap();
    let mut cron_session = OpSession::new(&jobs[0].op);
    let mut manual_session = OpSession::new(&manual_op);
    assert_eq!(midnight_plan, vec![DeviceCommand::Off]);
    let c1 = cron_session.next_command().unwrap();
    let c2 = manual_session.next_command().unwrap();
    assert_eq!(cmd_args(&c1), strings(&["off"]));
    assert_eq!(cmd_args(&c2), strings(&["off"]));
    cron_session.record(Err(FailureDetail::CommandFailed("device busy".to_string())));
    manual_session.record(Ok(()));
    assert!(cron_session.next_command().is_none());
    assert!(manual_session.next_command().is_none());
    assert!(cron_session.into_outcome().is_err());
    assert!(manual_session.into_outcome().is_ok());
    assert_eq!(response_text(&a, true), "Light turned off!");
}

#[test]
fn invocation_carries_credentials_and_workdir() {
    let creds = DeviceCredentials::from_values(
        Some("10.0.0.2".to_string()),
        Some("user1".to_string()),
        Some("hunter2".to_string()),
        Some("/opt/kasa".to_string()),
    )
    .unwrap();
    let inv = build_invocation(&creds, &DeviceCommand::On);
    assert_eq!(inv.program, "uv");
    assert_eq!(inv.workdir, "/opt/kasa");
    assert_eq!(
        inv.args,
        strings(&[
            "run",
            "kasa",
            "--host",
            "10.0.0.2",
            "--username",
            "user1",
            "--password",
            "hunter2",
            "on",
        ])
    );
}

#[test]
fn config_requires_every_value() {
    let v = |s: &str| Some(s.to_string());
    assert!(DeviceCredentials::from_values(v("ip"), v("u"), v("p"), v("d")).is_ok());
    assert!(matches!(
        DeviceCredentials::from_values(None, v("u"), v("p"), v("d")),
        Err(ConfigError::MissingDeviceIp)
    ));
    assert!(matches!(
        DeviceCredentials::from_values(v("ip"), None, v("p"), v("d")),
        Err(ConfigError::MissingUsername)
    ));
    assert!(matches!(
        DeviceCredentials::from_values(v("ip"), v("u"), None, v("d")),
        Err(ConfigError::MissingPassword)
    ));
    assert!(matches!(
        DeviceCredentials::from_values(v("ip"), v("u"), v("p"), None),
        Err(ConfigError::MissingKasaDir)
    ));
}
