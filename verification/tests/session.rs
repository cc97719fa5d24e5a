use arieltune::cli::run;
use arieltune::commands::{Cmd, CuCmd, GpuCmd};
use arieltune::model::{Fault, Reply, Site};
use arieltune::plan::{Action, Op, Outcome, Script};
use arieltune::session::Session;
use arieltune::text::Line;

type Steps = Vec<(Action<String>, Reply)>;

fn site() -> Site {
    Site {
        modprobe_conf: "/etc/modprobe.d/bc250.conf".to_string(),
        route_unit: "arieltune-route.service".to_string(),
        route_profile: "/var/lib/aputune/route.json".to_string(),
        power_config: "/var/lib/aputune/power.json".to_string(),
        cpu_oc_unit: "arieltune-cpu-oc.service".to_string(),
        sclk_min_mhz: 350,
        sclk_max_mhz: 2230,
        temp_max_c: 100,
        vid_ceiling_mv: 1325,
        boost_warn_mhz: 3850,
    }
}

fn host(op: Op, reply: Reply) -> (Action<String>, Reply) {
    (Action::Host(op), reply)
}

fn fault(message: &str) -> Fault<String> {
    Fault { message: message.to_string(), chain: message.to_string() }
}

/// Runs a command against a host that expects these actions, in this order, and no others.
fn drive(cmd: Cmd, steps: Steps) -> Outcome<String> {
    let site = site();
    let mut session = run(&site, cmd);
    for (action, reply) in steps {
        assert_eq!(session.action(), Some(&action));
        assert!(session.resume(&site, &reply));
    }
    assert_eq!(session.action(), None);
    session.outcome().unwrap()
}

#[test]
fn misfit_reply_is_not_accepted() {
    let site = site();
    let mut session = run(&site, Cmd::Gpu { action: GpuCmd::Status });
    assert_eq!(session.action(), Some(&Action::Host(Op::LoadPower)));
    assert!(!session.resume(&site, &Reply::Done));
    assert!(!session.resume(&site, &Reply::Flag(true)));
    assert_eq!(session.action(), Some(&Action::Host(Op::LoadPower)));
    assert_eq!(session.outcome(), None);
}

#[test]
fn failure_of_a_question_ends_the_command() {
    assert_eq!(
        drive(
            Cmd::Cu { action: CuCmd::RouteLoad },
            vec![host(Op::ApplySavedRoute, Reply::Failed(fault("no file")))]
        ),
        Outcome::Failed(fault("no file"))
    );
}

#[test]
fn ended_command_takes_no_reply() {
    let site = site();
    let mut session = run(&site, Cmd::Gpu { action: GpuCmd::Poke });
    assert!(session.resume(&site, &Reply::Done));
    assert_eq!(session.outcome(), Some(Outcome::Success));
    assert!(!session.resume(&site, &Reply::Done));
    let mut session = run(&site, Cmd::Gpu { action: GpuCmd::TempCap { c: 0 } });
    assert_eq!(session.action(), None);
    assert!(!session.resume(&site, &Reply::Done));
    assert_eq!(
        session.outcome(),
        Some(Outcome::Failed(fault("gpu temp cap 0 C outside 60-100 C")))
    );
}

#[test]
fn text_cannot_fail_a_command() {
    let site = site();
    let mut session = Session::new(Script::new().tell("a").say(Line::new("b").num(7)));
    assert!(session.resume(&site, &Reply::Failed(fault("broken pipe"))));
    assert_eq!(session.action(), Some(&Action::Println("b7".to_string())));
    assert!(session.resume(&site, &Reply::Done));
    assert_eq!(session.outcome(), Some(Outcome::Success));
}

#[test]
fn scripts_can_be_joined() {
    let site = site();
    let mut session = Session::new(
        Script::new().go(Op::Poke).and(Script::new().must(Op::ApplyMode).fail(Line::new("x"))),
    );
    assert!(session.resume(&site, &Reply::Failed(fault("ignored"))));
    assert_eq!(session.action(), Some(&Action::Host(Op::ApplyMode)));
    assert!(session.resume(&site, &Reply::Done));
    assert_eq!(session.outcome(), Some(Outcome::Failed(fault("x"))));
}

#[test]
fn one_command_against_any_fixed_reply_ends_or_refuses() {
    let site = site();
    for reply in [Reply::Done, Reply::Flag(true), Reply::Failed(fault("f"))] {
        let mut session = run(&site, Cmd::Cu { action: CuCmd::Test { localize: true, probe: false } });
        let mut used: u32 = 0;
        while session.resume(&site, &reply) {
            used += 1;
            assert!(used < 100);
        }
    }
}
