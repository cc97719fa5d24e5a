use arieltune::cli::run;
use arieltune::commands::{Cmd, ProfileCmd};
use arieltune::model::{Fault, ProfileEntry, Reply, Site};
use arieltune::plan::{Action, Op, Outcome};

type Steps = Vec<(Action<String>, Reply)>;

fn site() -> Site {
    Site {
        modprobe_conf: "/etc/modprobe.d/bc250.conf".to_string(),
        route_unit: "arieltune-route.service".to_string(),
        route_profile: "/var/lib/aputune/route.json".to_string(),
        power_config: "/var/lib/aputune/power.json".to_string(),
        cpu_oc_unit: "arieltune-cpu-oc.service".to_string(),
        sclk_min_mhz: 350,
        sclk_max_mhz: 2230,
        temp_max_c: 100,
        vid_ceiling_mv: 1325,
        boost_warn_mhz: 3850,
    }
}

fn say(text: &str) -> (Action<String>, Reply) {
    (Action::Println(text.to_string()), Reply::Done)
}

fn host(op: Op, reply: Reply) -> (Action<String>, Reply) {
    (Action::Host(op), reply)
}

fn fault(message: &str) -> Fault<String> {
    Fault { message: message.to_string(), chain: message.to_string() }
}

/// Runs a command against a host that expects these actions, in this order, and no others.
fn drive(cmd: Cmd, steps: Steps) -> Outcome<String> {
    let site = site();
    let mut session = run(&site, cmd);
    for (action, reply) in steps {
        assert_eq!(session.action(), Some(&action));
        assert!(session.resume(&site, &reply));
    }
    assert_eq!(session.action(), None);
    session.outcome().unwrap()
}

fn profile(action: ProfileCmd) -> Cmd {
    Cmd::Profile { action }
}

fn entry(cu_40: Option<bool>) -> ProfileEntry {
    ProfileEntry {
        name: "quiet".to_string(),
        description: "low noise".to_string(),
        plan: vec!["cpu: 3200 MHz".to_string(), "gpu: 1000 MHz".to_string()],
        cu_40,
    }
}

fn find(found: Option<ProfileEntry>) -> (Action<String>, Reply) {
    (Action::FindProfile("quiet".to_string()), Reply::Profile(found))
}

#[test]
fn profiles_are_listed() {
    let mut long = entry(None);
    long.name = "a-very-long-profile-name".to_string();
    let out = drive(
        profile(ProfileCmd::List),
        vec![
            host(Op::AllProfiles, Reply::Profiles(vec![entry(None), long])),
            say("quiet          low noise"),
            say("a-very-long-profile-name low noise"),
        ],
    );
    assert_eq!(out, Outcome::Success);
}

#[test]
fn profile_is_shown() {
    let out = drive(
        profile(ProfileCmd::Show { name: "quiet".to_string() }),
        vec![
            find(Some(entry(None))),
            say("quiet — low noise\n"),
            say("  cpu: 3200 MHz"),
            say("  gpu: 1000 MHz"),
        ],
    );
    assert_eq!(out, Outcome::Success);
}

#[test]
fn missing_profile_is_an_error() {
    for action in [
        ProfileCmd::Show { name: "quiet".to_string() },
        ProfileCmd::Apply { name: "quiet".to_string(), write: true },
    ] {
        assert_eq!(
            drive(profile(action), vec![find(None)]),
            Outcome::Failed(fault("no profile 'quiet'"))
        );
    }
}

#[test]
fn dry_run_applies_nothing() {
    let out = drive(
        profile(ProfileCmd::Apply { name: "quiet".to_string(), write: false }),
        vec![
            find(Some(entry(Some(true)))),
            say("profile 'quiet' — low noise"),
            say("  cpu: 3200 MHz"),
            say("  gpu: 1000 MHz"),
            say("\n(dry-run; pass --write to apply)"),
        ],
    );
    assert_eq!(out, Outcome::Success);
}

fn shown(cu_40: Option<bool>) -> Steps {
    vec![
        find(Some(entry(cu_40))),
        say("profile 'quiet' — low noise"),
        say("  cpu: 3200 MHz"),
        say("  gpu: 1000 MHz"),
    ]
}

fn write() -> Cmd {
    profile(ProfileCmd::Apply { name: "quiet".to_string(), write: true })
}

#[test]
fn cus_are_armed_last() {
    let mut steps = shown(Some(true));
    steps.extend(vec![
        host(Op::ValidateProfile, Reply::Done),
        host(Op::OpenOc, Reply::Failed(fault("no root"))),
        host(Op::ApplyProfile, Reply::Done),
        host(Op::ArmCu, Reply::Done),
        say("armed 40-CU: /etc/modprobe.d/bc250.conf (reboot to apply)"),
        say("applied 'quiet'"),
    ]);
    assert_eq!(drive(write(), steps), Outcome::Success);
    let mut steps = shown(Some(false));
    steps.extend(vec![
        host(Op::ValidateProfile, Reply::Done),
        host(Op::OpenOc, Reply::Done),
        host(Op::ApplyProfile, Reply::Done),
        host(Op::DisarmCu, Reply::Done),
        say("disarmed 40-CU (reboot to apply)"),
        say("applied 'quiet'"),
    ]);
    assert_eq!(drive(write(), steps), Outcome::Success);
    let mut steps = shown(None);
    steps.extend(vec![
        host(Op::ValidateProfile, Reply::Done),
        host(Op::OpenOc, Reply::Done),
        host(Op::ApplyProfile, Reply::Done),
        say("applied 'quiet'"),
    ]);
    assert_eq!(drive(write(), steps), Outcome::Success);
}

#[test]
fn invalid_profile_is_not_applied() {
    let mut steps = shown(Some(true));
    steps.push(host(Op::ValidateProfile, Reply::Failed(fault("bad point"))));
    assert_eq!(drive(write(), steps), Outcome::Failed(fault("bad point")));
}

#[test]
fn failed_apply_does_not_arm() {
    let mut steps = shown(Some(true));
    steps.extend(vec![
        host(Op::ValidateProfile, Reply::Done),
        host(Op::OpenOc, Reply::Done),
        host(Op::ApplyProfile, Reply::Failed(fault("smu busy"))),
    ]);
    assert_eq!(drive(write(), steps), Outcome::Failed(fault("smu busy")));
}

#[test]
fn custom_profile_is_deleted() {
    let delete = |reply: Reply| (Action::DeleteProfile("mine".to_string()), reply);
    let cmd = || profile(ProfileCmd::Delete { name: "mine".to_string() });
    assert_eq!(
        drive(cmd(), vec![delete(Reply::Done), say("deleted custom profile 'mine'")]),
        Outcome::Success
    );
    assert_eq!(
        drive(cmd(), vec![delete(Reply::Failed(fault("built-in")))]),
        Outcome::Failed(fault("built-in"))
    );
}
