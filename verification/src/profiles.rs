//! Tuning profile commands.
use vstd::prelude::*;

use crate::commands::ProfileCmd;
use crate::model::{ProfileEntry, Site};
use crate::plan::{
    act, ask, fail, go, must, say, say_all, Action, Op, Plan, Point, Script, Spot, Then,
};
use crate::text::{left, Line};

verus! {

/// The opening plan of a profile command.
pub open spec fn profile_plan(cmd: ProfileCmd) -> Plan {
    match cmd {
        ProfileCmd::List => seq![ask(Op::AllProfiles, Spot::ListProfiles)],
        ProfileCmd::Show { name } => seq![
            act(Action::FindProfile(name@), Then::Ask(Point::ShowProfile(name@))),
        ],
        ProfileCmd::Apply { name, write } => seq![
            act(Action::FindProfile(name@), Then::Ask(Point::ApplyProfile { name: name@, write })),
        ],
        ProfileCmd::Delete { name } => seq![
            act(Action::DeleteProfile(name@), Then::Require),
            say("deleted custom profile '"@ + name@ + "'"@),
        ],
    }
}

/// Opens a profile command.
pub fn cmd_profile(action: ProfileCmd) -> (s: Script)
    ensures
        s@ == profile_plan(action),
{
    match action {
        ProfileCmd::List => Script::new().ask(Op::AllProfiles, Spot::ListProfiles),
        ProfileCmd::Show { name } => Script::new().act(
            Action::FindProfile(name.clone()),
            Then::Ask(Point::ShowProfile(name)),
        ),
        ProfileCmd::Apply { name, write } => Script::new().act(
            Action::FindProfile(name.clone()),
            Then::Ask(Point::ApplyProfile { name, write }),
        ),
        ProfileCmd::Delete { name } => Script::new().act(
            Action::DeleteProfile(name.clone()),
            Then::Require,
        ).say(Line::new("deleted custom profile '").text(name.as_str()).text("'")),
    }
}

/// One line for each profile: its name and its description.
pub open spec fn list_plan(profiles: Seq<ProfileEntry>) -> Plan {
    profiles.map_values(|p: ProfileEntry| say(left(p.name@, 14) + " "@ + p.description@))
}

/// Lists the profiles.
pub fn list(profiles: &Vec<ProfileEntry>) -> (s: Script)
    ensures
        s@ == list_plan(profiles@),
{
    let ghost all = list_plan(profiles@);
    let mut s: Script = Script::new();
    let mut i: usize = 0;
    assert(s@ =~= all.take(0));
    while i < profiles.len()
        invariant
            i <= profiles.len(),
            all == list_plan(profiles@),
            s@ == all.take(i as int),
        decreases profiles.len() - i,
    {
        let p: &ProfileEntry = &profiles[i];
        proof {
            reveal_strlit("");
            assert(""@ + left(p.name@, 14) =~= left(p.name@, 14));
        }
        s = s.say(Line::new("").left(p.name.as_str(), 14).text(" ").text(p.description.as_str()));
        assert(all.take(i + 1) =~= all.take(i as int).push(all[i as int]));
        i = i + 1;
    }
    assert(all.take(i as int) =~= all);
    s
}

/// The error where there is no such profile.
pub open spec fn no_profile(name: Seq<char>) -> Plan {
    seq![fail("no profile '"@ + name + "'"@)]
}

fn missing(name: &String) -> (s: Script)
    ensures
        s@ == no_profile(name@),
{
    Script::new().fail(Line::new("no profile '").text(name.as_str()).text("'"))
}

/// A profile and what applying it would do.
pub open spec fn show_plan(name: Seq<char>, found: Option<ProfileEntry>) -> Plan {
    match found {
        Some(p) => seq![say(p.name@ + " — "@ + p.description@ + "\n"@)] + say_all(
            "  "@,
            p.plan.deep_view(),
        ),
        None => no_profile(name),
    }
}

/// Shows a profile.
pub fn show(name: &String, found: &Option<ProfileEntry>) -> (s: Script)
    ensures
        s@ == show_plan(name@, *found),
{
    match found {
        Some(p) => Script::new().say(
            Line::new(p.name.as_str()).text(" — ").text(p.description.as_str()).text("\n"),
        ).say_all("  ", &p.plan),
        None => missing(name),
    }
}

/// The 40 CUs are armed or disarmed where the profile says so.
pub open spec fn cu_steps(site: Site, cu_40: Option<bool>) -> Plan {
    match cu_40 {
        Some(true) => seq![
            must(Op::ArmCu),
            say("armed 40-CU: "@ + site.modprobe_conf@ + " (reboot to apply)"@),
        ],
        Some(false) => seq![must(Op::DisarmCu), say("disarmed 40-CU (reboot to apply)"@)],
        None => Plan::empty(),
    }
}

fn cu_script(site: &Site, cu_40: Option<bool>) -> (s: Script)
    ensures
        s@ == cu_steps(*site, cu_40),
{
    match cu_40 {
        Some(armed) => if armed {
            Script::new().must(Op::ArmCu).say(
                Line::new("armed 40-CU: ").text(site.modprobe_conf.as_str()).text(
                    " (reboot to apply)",
                ),
            )
        } else {
            Script::new().must(Op::DisarmCu).tell("disarmed 40-CU (reboot to apply)")
        },
        None => Script::new(),
    }
}

/// A profile is shown. A dry run ends there; else it is validated, applied, and the CUs are armed
/// last.
pub open spec fn apply_plan(
    site: Site,
    name: Seq<char>,
    write: bool,
    found: Option<ProfileEntry>,
) -> Plan {
    match found {
        Some(p) => {
            let shown = seq![say("profile '"@ + p.name@ + "' — "@ + p.description@)] + say_all(
                "  "@,
                p.plan.deep_view(),
            );
            if write {
                shown + seq![
                    must(Op::ValidateProfile),
                    go(Op::OpenOc),
                    must(Op::ApplyProfile),
                ] + cu_steps(site, p.cu_40) + seq![say("applied '"@ + p.name@ + "'"@)]
            } else {
                shown + seq![say("\n(dry-run; pass --write to apply)"@)]
            }
        },
        None => no_profile(name),
    }
}

/// Applies a profile.
pub fn apply(site: &Site, name: &String, write: bool, found: &Option<ProfileEntry>) -> (s: Script)
    ensures
        s@ == apply_plan(*site, name@, write, *found),
{
    match found {
        Some(p) => {
            let shown: Script = Script::new().say(
                Line::new("profile '").text(p.name.as_str()).text("' — ").text(
                    p.description.as_str(),
                ),
            ).say_all("  ", &p.plan);
            if write {
                shown.and(
                    Script::new().must(Op::ValidateProfile).go(Op::OpenOc).must(Op::ApplyProfile),
                ).and(cu_script(site, p.cu_40)).and(
                    Script::new().say(Line::new("applied '").text(p.name.as_str()).text("'")),
                )
            } else {
                shown.and(Script::new().tell("\n(dry-run; pass --write to apply)"))
            }
        },
        None => missing(name),
    }
}

} // verus!
