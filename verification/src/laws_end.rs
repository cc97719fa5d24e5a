//! Termination: every command comes to its end.
use vstd::prelude::*;

use crate::cli::opening;
use crate::commands::Cmd;
use crate::decide::{decision, spot_plan};
use crate::model::{Reply, Site};
use crate::plan::{Instr, Plan, Point, Spot, Then};
use crate::protocol::{boot_spot, cpu_spot, cu_spot, gpu_spot, suits};
use crate::session::{pending, resumed};
use crate::trace::{course, course_of, law_every_answer_is_used};

verus! {

/// How many decisions can follow one another from a decision without text on.
pub open spec fn spot_rank(spot: Spot) -> nat {
    match spot {
        Spot::VidPower(..) => 6,
        Spot::BootLoaded => 6,
        Spot::VidGovernor { .. } => 5,
        Spot::TopPower(..) => 5,
        Spot::BootDefault(..) => 5,
        Spot::Doctor { .. } => 5,
        Spot::Toggled { .. } => 4,
        Spot::BenchCurrent => 4,
        Spot::PinConfig(..) => 4,
        Spot::VidClock { .. } => 4,
        Spot::TopSet(..) => 4,
        Spot::BootUptime { .. } => 4,
        Spot::DoctorPower => 4,
        Spot::RouteSaved(..) => 3,
        Spot::BenchShape(..) => 3,
        Spot::SavedRoute => 3,
        Spot::KatReady { .. } => 3,
        Spot::GpuStatus => 3,
        Spot::PinRaise(..) => 3,
        Spot::VidFloor { .. } => 3,
        Spot::TopGovernor { .. } => 3,
        Spot::DeepPower(..) => 3,
        Spot::BootVidGovernor { .. } => 3,
        Spot::CpuTune { .. } => 3,
        Spot::UndervoltScale(..) => 3,
        Spot::CpuSaved => 3,
        Spot::DoctorGpuUnit => 3,
        Spot::LiveRoute => 2,
        Spot::RoutePersisted(..) => 2,
        Spot::BenchDone { .. } => 2,
        Spot::SavedRouteArmed(..) => 2,
        Spot::LoadedRoute => 2,
        Spot::KatFull { .. } => 2,
        Spot::StatusClock => 2,
        Spot::Unforced => 2,
        Spot::PinVddc { .. } => 2,
        Spot::VidSet { .. } => 2,
        Spot::VidReset => 2,
        Spot::TopClock { .. } => 2,
        Spot::DeepSet(..) => 2,
        Spot::TempCap(..) => 2,
        Spot::BootVidClock(..) => 2,
        Spot::BootLegacy { .. } => 2,
        Spot::CpuStatus => 2,
        Spot::CpuTuned(..) => 2,
        Spot::UndervoltBase { .. } => 2,
        Spot::CpuReapply => 2,
        Spot::DoctorCpuUnit { .. } => 2,
        _ => 1,
    }
}

/// How many decisions can follow one another from a decision on.
pub open spec fn point_rank(point: Point<Seq<char>>) -> nat {
    match point {
        Point::At(spot) => spot_rank(spot),
        Point::LiberateBoard { .. } => 4,
        Point::LiberateReport { .. } => 3,
        Point::Detected(_) => 3,
        Point::DetectedVid { .. } => 2,
        Point::TierTty(_) => 2,
        _ => 1,
    }
}

/// How many decisions can follow one another from a step on.
pub open spec fn step_rank(step: Instr<Seq<char>>) -> nat {
    match step {
        Instr::End(_) => 0,
        Instr::Do { action, then } => match then {
            Then::Ask(point) => point_rank(point),
            Then::Judge(point) => point_rank(point),
            _ => 0,
        },
    }
}

/// Whether the steps of a plan are all below a rank.
pub open spec fn below(plan: Plan, rank: nat) -> bool {
    forall|i: int| 0 <= i < plan.len() ==> step_rank(#[trigger] plan[i]) < rank
}

proof fn lemma_cu_descends(site: Site, spot: Spot, reply: Reply)
    requires
        cu_spot(spot),
        spot_plan(site, spot, reply) is Some,
    ensures
        below(spot_plan(site, spot, reply)->0, spot_rank(spot)),
{
}

proof fn lemma_gpu_descends(site: Site, spot: Spot, reply: Reply)
    requires
        gpu_spot(spot),
        spot_plan(site, spot, reply) is Some,
    ensures
        below(spot_plan(site, spot, reply)->0, spot_rank(spot)),
{
}

proof fn lemma_boot_descends(site: Site, spot: Spot, reply: Reply)
    requires
        boot_spot(spot),
        spot_plan(site, spot, reply) is Some,
    ensures
        below(spot_plan(site, spot, reply)->0, spot_rank(spot)),
{
}

proof fn lemma_cpu_descends(site: Site, spot: Spot, reply: Reply)
    requires
        cpu_spot(spot),
        spot_plan(site, spot, reply) is Some,
    ensures
        below(spot_plan(site, spot, reply)->0, spot_rank(spot)),
{
}

proof fn lemma_report_descends(site: Site, spot: Spot, reply: Reply)
    requires
        !cu_spot(spot),
        !gpu_spot(spot),
        !boot_spot(spot),
        !cpu_spot(spot),
        spot_plan(site, spot, reply) is Some,
    ensures
        below(spot_plan(site, spot, reply)->0, spot_rank(spot)),
{
}

/// Law: every decision makes a plan whose own decisions are of a lower rank.
pub proof fn law_decisions_descend(site: Site, point: Point<Seq<char>>, reply: Reply)
    requires
        decision(site, point, reply) is Some,
    ensures
        below(decision(site, point, reply)->0, point_rank(point)),
{
    if let Point::At(spot) = point {
        if cu_spot(spot) {
            lemma_cu_descends(site, spot, reply);
        } else if gpu_spot(spot) {
            lemma_gpu_descends(site, spot, reply);
        } else if boot_spot(spot) {
            lemma_boot_descends(site, spot, reply);
        } else if cpu_spot(spot) {
            lemma_cpu_descends(site, spot, reply);
        } else {
            lemma_report_descends(site, spot, reply);
        }
    }
}

/// The number of steps of a rank.
spec fn count(plan: Plan, rank: nat) -> nat
    decreases plan.len(),
{
    if plan.len() == 0 {
        0
    } else {
        count(plan.drop_first(), rank) + if step_rank(plan[0]) == rank {
            1nat
        } else {
            0nat
        }
    }
}

proof fn lemma_count_joined(a: Plan, b: Plan, rank: nat)
    ensures
        count(a + b, rank) == count(a, rank) + count(b, rank),
    decreases a.len(),
{
    if a.len() == 0 {
        assert(a + b =~= b);
    } else {
        lemma_count_joined(a.drop_first(), b, rank);
        assert((a + b).drop_first() =~= a.drop_first() + b);
    }
}

proof fn lemma_count_below(plan: Plan, rank: nat)
    requires
        below(plan, rank),
    ensures
        forall|r: nat| rank <= r ==> #[trigger] count(plan, r) == 0,
    decreases plan.len(),
{
    if plan.len() > 0 {
        assert(below(plan.drop_first(), rank));
        lemma_count_below(plan.drop_first(), rank);
        assert(step_rank(plan[0]) < rank);
        assert forall|r: nat| rank <= r implies #[trigger] count(plan, r) == 0 by {
            assert(count(plan.drop_first(), r) == 0);
        }
    }
}

/// What a reply makes of the number of steps of each rank: one step less of the rank of the first
/// step, and no more of any higher rank.
proof fn lemma_resumed_counts(site: Site, plan: Plan, reply: Reply)
    requires
        resumed(site, plan, reply) is Some,
    ensures
        ({
            let next = resumed(site, plan, reply)->0;
            ||| next.len() == 1 && pending(next) is None
            ||| {
                &&& count(next, step_rank(plan[0])) + 1 == count(plan, step_rank(plan[0]))
                &&& forall|r: nat| r > step_rank(plan[0]) ==> #[trigger] count(next, r) == count(
                    plan,
                    r,
                )
            }
        }),
{
    let next = resumed(site, plan, reply)->0;
    let rest = plan.drop_first();
    let rank = step_rank(plan[0]);
    if let Instr::Do { action, then } = plan[0] {
        match then {
            Then::Ask(point) | Then::Judge(point) => {
                if !(then is Ask && reply is Failed) {
                    let decided = decision(site, point, reply)->0;
                    law_decisions_descend(site, point, reply);
                    lemma_count_below(decided, rank);
                    lemma_count_joined(decided, rest, rank);
                    assert(count(decided, rank) == 0);
                    assert forall|r: nat| r > rank implies #[trigger] count(next, r) == count(
                        plan,
                        r,
                    ) by {
                        lemma_count_joined(decided, rest, r);
                        assert(count(decided, r) == 0);
                    }
                }
            },
            _ => {},
        }
    }
}

/// What is left of a plan after the first replies of a stream, where it uses all of them.
spec fn left_after(site: Site, plan: Plan, stream: spec_fn(nat) -> Reply, from: nat, n: nat) -> Plan
    decreases n,
{
    if n == 0 {
        plan
    } else {
        match resumed(site, plan, stream(from)) {
            Some(next) => left_after(site, next, stream, from + 1, (n - 1) as nat),
            None => plan,
        }
    }
}

/// No plan uses the replies of a stream for ever.
proof fn lemma_stops(
    site: Site,
    plan: Plan,
    stream: spec_fn(nat) -> Reply,
    from: nat,
) -> (n: nat)
    requires
        below(plan, 7),
    ensures
        resumed(site, left_after(site, plan, stream, from, n), stream(from + n)) is None,
        uses(site, plan, stream, from, n),
    decreases
            count(plan, 6),
            count(plan, 5),
            count(plan, 4),
            count(plan, 3),
            count(plan, 2),
            count(plan, 1),
            count(plan, 0),
{
    match resumed(site, plan, stream(from)) {
        None => 0,
        Some(next) => {
            lemma_resumed_counts(site, plan, stream(from));
            assert(step_rank(plan[0]) < 7);
            if next.len() == 1 && pending(next) is None {
                assert(left_after(site, next, stream, from + 1, 0) == next);
                assert(uses(site, next, stream, from + 1, 0));
                1
            } else {
                lemma_below_resumed(site, plan, stream(from));
                let n = lemma_stops(site, next, stream, from + 1);
                assert(from + 1 + n == from + (n + 1));
                n + 1
            }
        },
    }
}

/// Whether a plan uses the first replies of a stream.
spec fn uses(site: Site, plan: Plan, stream: spec_fn(nat) -> Reply, from: nat, n: nat) -> bool
    decreases n,
{
    n == 0 || match resumed(site, plan, stream(from)) {
        Some(next) => uses(site, next, stream, from + 1, (n - 1) as nat),
        None => false,
    }
}

/// No reply brings a step of a higher rank than any decision has.
proof fn lemma_below_resumed(site: Site, plan: Plan, reply: Reply)
    requires
        below(plan, 7),
        resumed(site, plan, reply) is Some,
    ensures
        below(resumed(site, plan, reply)->0, 7),
{
    let next = resumed(site, plan, reply)->0;
    let rest = plan.drop_first();
    assert forall|i: int| 0 <= i < rest.len() implies step_rank(#[trigger] rest[i]) < 7 by {
        assert(rest[i] == plan[i + 1]);
    }
    if let Instr::Do { action, then } = plan[0] {
        match then {
            Then::Ask(point) | Then::Judge(point) => {
                if !(then is Ask && reply is Failed) {
                    let decided = decision(site, point, reply)->0;
                    law_decisions_descend(site, point, reply);
                    assert(step_rank(plan[0]) < 7);
                    assert forall|i: int| 0 <= i < next.len() implies step_rank(
                        #[trigger] next[i],
                    ) < 7 by {
                        if i < decided.len() {
                            assert(next[i] == decided[i]);
                        } else {
                            assert(next[i] == rest[i - decided.len()]);
                        }
                    }
                }
            },
            _ => {},
        }
    }
}

/// Counting the replies from the front or from the back comes to the same.
proof fn lemma_left_after(
    site: Site,
    plan: Plan,
    stream: spec_fn(nat) -> Reply,
    from: nat,
    n: nat,
)
    requires
        uses(site, plan, stream, from, n),
    ensures
        course_of(site, plan, Seq::new(n, |i: int| stream((from + i) as nat))).plan == left_after(
            site,
            plan,
            stream,
            from,
            n,
        ),
    decreases n,
{
    if n > 0 {
        lemma_uses_fewer(site, plan, stream, from, (n - 1) as nat);
        lemma_left_after(site, plan, stream, from, (n - 1) as nat);
        lemma_last_reply(site, plan, stream, from, (n - 1) as nat);
        let all = Seq::new(n, |i: int| stream((from + i) as nat));
        assert(all.drop_last() =~= Seq::new((n - 1) as nat, |i: int| stream((from + i) as nat)));
    }
}

/// A plan that uses one reply more uses these.
proof fn lemma_uses_fewer(
    site: Site,
    plan: Plan,
    stream: spec_fn(nat) -> Reply,
    from: nat,
    n: nat,
)
    requires
        uses(site, plan, stream, from, n + 1),
    ensures
        uses(site, plan, stream, from, n),
    decreases n,
{
    if n > 0 {
        lemma_uses_fewer(
            site,
            resumed(site, plan, stream(from))->0,
            stream,
            from + 1,
            (n - 1) as nat,
        );
    }
}

/// The last reply that a plan uses.
proof fn lemma_last_reply(
    site: Site,
    plan: Plan,
    stream: spec_fn(nat) -> Reply,
    from: nat,
    n: nat,
)
    requires
        uses(site, plan, stream, from, n + 1),
    ensures
        resumed(site, left_after(site, plan, stream, from, n), stream(from + n)) == Some(
            left_after(site, plan, stream, from, n + 1),
        ),
    decreases n,
{
    let next = resumed(site, plan, stream(from))->0;
    reveal_with_fuel(left_after, 2);
    if n > 0 {
        lemma_last_reply(site, next, stream, from + 1, (n - 1) as nat);
        assert(from + 1 + (n - 1) == from + n);
    }
}

/// The decisions of the opening of a command are of the known ranks.
proof fn lemma_opening_below(site: Site, cmd: Cmd)
    ensures
        below(opening(site, cmd), 7),
{
}

/// Law: every command ends. Whatever stream of replies the host gives, there is a time at which
/// the command has ended, or at which the host gives a reply that does not suit the action.
pub proof fn law_every_command_ends(site: Site, cmd: Cmd, stream: spec_fn(nat) -> Reply) -> (n: nat)
    ensures
        ({
            let c = course(site, cmd, Seq::new(n, |i: int| stream(i as nat)));
            pending(c.plan) matches Some(action) ==> !suits(action, stream(n))
        }),
{
    let plan = opening(site, cmd);
    lemma_opening_below(site, cmd);
    let n = lemma_stops(site, plan, stream, 0);
    lemma_left_after(site, plan, stream, 0, n);
    let replies = Seq::new(n, |i: int| stream(i as nat));
    assert(replies =~= Seq::new(n, |i: int| stream((0 + i) as nat)));
    law_every_answer_is_used(site, cmd, replies, stream(n));
    n
}

} // verus!
