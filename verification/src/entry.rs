//! The entry of the suite: which of its tools a command line is for.
use vstd::prelude::*;

use crate::commands::Cmd;
use crate::compat::{law_legacy_name_is_its_namespace, owed_namespace, with_namespace};
use crate::model::Fault;
use crate::plan::{maybe, Outcome};
use crate::scan::{after_slash, last_component, strip_slashes};
use crate::text::Line;

verus! {

/// A subcommand of the suite. The commands of the other tools are opaque to it.
#[derive(Debug, Clone, PartialEq, Eq)]
pub enum Top<M, G, B, W> {
    /// Launch the tabbed interface.
    Tui,
    /// APU liberation and tuner; without a command, the interface at its tab.
    Apu { cmd: Option<Cmd> },
    /// Memory-timing tuner; without a command, the interface at its tab.
    Mem { cmd: Option<M> },
    /// BIOS surface; without a command, the interface at its tab.
    Bios { global: G, cmd: Option<B> },
    /// Knowledge manual; without a command, the interface at its tab.
    Wiki { cmd: Option<W> },
    /// Migrate a machine from the standalone tools.
    Migrate { apply: bool },
    /// Remove the suite.
    Uninstall { apply: bool, purge: bool, revert_hw: bool },
}

/// What the suite is to run.
#[derive(Debug, Clone, PartialEq, Eq)]
pub enum Entry<M, G, B, W> {
    Apu(Cmd),
    Mem(M),
    Bios { global: G, cmd: B },
    Wiki(W),
    Migrate { apply: bool },
    Uninstall { apply: bool, purge: bool, revert_hw: bool },
    /// The tabbed interface, at a tab where one is asked for.
    Shell { tab: Option<String> },
}

/// What the suite runs, with the tab as text.
pub enum Target<M, G, B, W> {
    Apu(Cmd),
    Mem(M),
    Bios { global: G, cmd: B },
    Wiki(W),
    Migrate { apply: bool },
    Uninstall { apply: bool, purge: bool, revert_hw: bool },
    Shell { tab: Option<Seq<char>> },
}

impl<M, G, B, W> View for Entry<M, G, B, W> {
    type V = Target<M, G, B, W>;

    open spec fn view(&self) -> Target<M, G, B, W> {
        match *self {
            Entry::Apu(cmd) => Target::Apu(cmd),
            Entry::Mem(cmd) => Target::Mem(cmd),
            Entry::Bios { global, cmd } => Target::Bios { global, cmd },
            Entry::Wiki(cmd) => Target::Wiki(cmd),
            Entry::Migrate { apply } => Target::Migrate { apply },
            Entry::Uninstall { apply, purge, revert_hw } => Target::Uninstall {
                apply,
                purge,
                revert_hw,
            },
            Entry::Shell { tab } => Target::Shell { tab: maybe(tab) },
        }
    }
}

/// The tab that is asked for: `--tab` wins over the tab that a subcommand implies.
pub open spec fn explicit_tab(tab: Option<Seq<char>>, implied: Option<Seq<char>>) -> Option<
    Seq<char>,
> {
    match tab {
        Some(t) => Some(t),
        None => implied,
    }
}

/// What a command line is for. A subcommand with a command of its own is run by its tool; without
/// one, it asks for the interface at its tab.
pub open spec fn dispatched<M, G, B, W>(
    tab: Option<Seq<char>>,
    cmd: Option<Top<M, G, B, W>>,
) -> Target<M, G, B, W> {
    match cmd {
        Some(Top::Migrate { apply }) => Target::Migrate { apply },
        Some(Top::Uninstall { apply, purge, revert_hw }) => Target::Uninstall {
            apply,
            purge,
            revert_hw,
        },
        Some(Top::Apu { cmd: Some(c) }) => Target::Apu(c),
        Some(Top::Apu { cmd: None }) => Target::Shell { tab: explicit_tab(tab, Some("apu"@)) },
        Some(Top::Mem { cmd: Some(c) }) => Target::Mem(c),
        Some(Top::Mem { cmd: None }) => Target::Shell { tab: explicit_tab(tab, Some("mem"@)) },
        Some(Top::Bios { global, cmd: Some(c) }) => Target::Bios { global, cmd: c },
        Some(Top::Bios { global, cmd: None }) => Target::Shell {
            tab: explicit_tab(tab, Some("bios"@)),
        },
        Some(Top::Wiki { cmd: Some(c) }) => Target::Wiki(c),
        Some(Top::Wiki { cmd: None }) => Target::Shell { tab: explicit_tab(tab, Some("wiki"@)) },
        Some(Top::Tui) => Target::Shell { tab: explicit_tab(tab, None) },
        None => Target::Shell { tab: explicit_tab(tab, None) },
    }
}

/// Decides what a command line is for.
pub fn dispatch<M, G, B, W>(tab: Option<String>, cmd: Option<Top<M, G, B, W>>) -> (entry: Entry<
    M,
    G,
    B,
    W,
>)
    ensures
        entry@ == dispatched(maybe(tab), cmd),
        match cmd {
            Some(Top::Migrate { apply }) => entry == (Entry::<M, G, B, W>::Migrate { apply }),
            Some(Top::Uninstall { apply, purge, revert_hw }) => entry == (Entry::<M, G, B, W>::Uninstall {
                apply,
                purge,
                revert_hw,
            }),
            Some(Top::Apu { cmd: Some(c) }) => entry == Entry::<M, G, B, W>::Apu(c),
            Some(Top::Mem { cmd: Some(c) }) => entry == Entry::<M, G, B, W>::Mem(c),
            Some(Top::Bios { global, cmd: Some(c) }) => entry == (Entry::<M, G, B, W>::Bios { global, cmd: c }),
            Some(Top::Wiki { cmd: Some(c) }) => entry == Entry::<M, G, B, W>::Wiki(c),
            _ => entry is Shell,
        },
        entry matches Entry::Shell { tab: asked } ==> (tab is Some ==> asked == tab),
{
    let implied: Option<String> = match cmd {
        Some(Top::Migrate { apply }) => {
            return Entry::Migrate { apply };
        },
        Some(Top::Uninstall { apply, purge, revert_hw }) => {
            return Entry::Uninstall { apply, purge, revert_hw };
        },
        Some(Top::Apu { cmd: Some(c) }) => {
            return Entry::Apu(c);
        },
        Some(Top::Apu { cmd: None }) => Some("apu".to_owned()),
        Some(Top::Mem { cmd: Some(c) }) => {
            return Entry::Mem(c);
        },
        Some(Top::Mem { cmd: None }) => Some("mem".to_owned()),
        Some(Top::Bios { global, cmd: Some(c) }) => {
            return Entry::Bios { global, cmd: c };
        },
        Some(Top::Bios { global: _, cmd: None }) => Some("bios".to_owned()),
        Some(Top::Wiki { cmd: Some(c) }) => {
            return Entry::Wiki(c);
        },
        Some(Top::Wiki { cmd: None }) => Some("wiki".to_owned()),
        Some(Top::Tui) => None,
        None => None,
    };
    match tab {
        Some(t) => Entry::Shell { tab: Some(t) },
        None => Entry::Shell { tab: implied },
    }
}

/// Law: the flags of a command line reach the tool unchanged: a migration and a removal are for
/// real, purge, and revert the hardware, exactly where that was asked for.
pub proof fn law_flags_are_carried<M, G, B, W>(
    tab: Option<Seq<char>>,
    apply: bool,
    purge: bool,
    revert_hw: bool,
)
    ensures
        dispatched(tab, Some(Top::<M, G, B, W>::Migrate { apply })) matches Target::Migrate {
            apply: a,
        } && a == apply,
        dispatched(
            tab,
            Some(Top::<M, G, B, W>::Uninstall { apply, purge, revert_hw }),
        ) matches Target::Uninstall { apply: a, purge: p, revert_hw: r } && a == apply && p == purge
            && r == revert_hw,
{
}

/// Law: nothing is migrated or removed for real unless the command line says so.
pub proof fn law_nothing_real_without_apply<M, G, B, W>(
    tab: Option<Seq<char>>,
    cmd: Option<Top<M, G, B, W>>,
)
    ensures
        dispatched(tab, cmd) matches Target::Migrate { apply: true } ==> cmd == Some(
            Top::<M, G, B, W>::Migrate { apply: true },
        ),
        dispatched(tab, cmd) matches Target::Uninstall { apply: true, purge, revert_hw } ==> cmd
            == Some(Top::<M, G, B, W>::Uninstall { apply: true, purge, revert_hw }),
{
}

/// Law: a command reaches the tool whose namespace it stands in, and no other, as it was parsed.
pub proof fn law_commands_reach_their_tool<M, G, B, W>(
    tab: Option<Seq<char>>,
    cmd: Option<Top<M, G, B, W>>,
    apu: Cmd,
    mem: M,
    global: G,
    bios: B,
    wiki: W,
)
    ensures
        dispatched(tab, cmd) == Target::<M, G, B, W>::Apu(apu) <==> cmd == Some(
            Top::<M, G, B, W>::Apu { cmd: Some(apu) },
        ),
        dispatched(tab, cmd) == Target::<M, G, B, W>::Mem(mem) <==> cmd == Some(
            Top::<M, G, B, W>::Mem { cmd: Some(mem) },
        ),
        dispatched(tab, cmd) == (Target::<M, G, B, W>::Bios { global, cmd: bios }) <==> cmd == Some(
            Top::<M, G, B, W>::Bios { global, cmd: Some(bios) },
        ),
        dispatched(tab, cmd) == Target::<M, G, B, W>::Wiki(wiki) <==> cmd == Some(
            Top::<M, G, B, W>::Wiki { cmd: Some(wiki) },
        ),
{
}

/// Law: the interface is opened at the tab of `--tab`; without it, at the tab of the namespace that
/// stands alone; without either, at none in particular.
pub proof fn law_tab_of_the_interface<M, G, B, W>(
    tab: Option<Seq<char>>,
    cmd: Option<Top<M, G, B, W>>,
)
    ensures
        dispatched(tab, cmd) matches Target::Shell { tab: asked } ==> {
            &&& tab is Some ==> asked == tab
            &&& tab is None ==> match asked {
                Some(name) => {
                    ||| name == "apu"@ && cmd matches Some(Top::Apu { cmd: None })
                    ||| name == "mem"@ && cmd matches Some(Top::Mem { cmd: None })
                    ||| name == "bios"@ && cmd matches Some(Top::Bios { global, cmd: None })
                    ||| name == "wiki"@ && cmd matches Some(Top::Wiki { cmd: None })
                },
                None => cmd is None || cmd matches Some(Top::Tui),
            }
        },
        cmd is None ==> dispatched(tab, cmd) is Shell,
        cmd matches Some(Top::Tui) ==> dispatched(tab, cmd) is Shell,
        cmd matches Some(Top::Apu { cmd: None }) ==> dispatched(tab, cmd) is Shell,
        cmd matches Some(Top::Mem { cmd: None }) ==> dispatched(tab, cmd) is Shell,
        cmd matches Some(Top::Bios { global, cmd: None }) ==> dispatched(tab, cmd) is Shell,
        cmd matches Some(Top::Wiki { cmd: None }) ==> dispatched(tab, cmd) is Shell,
{
}

/// The one line that an error is reported by: its message and those of its causes.
pub fn error_line(f: &Fault<String>) -> (s: String)
    ensures
        s@ == "error: "@ + f@.chain,
        s@ == "error: "@ + f.chain@,
{
    Line::new("error: ").text(f.chain.as_str()).done()
}

/// The status that the process ends with.
pub open spec fn status_of(outcome: Outcome<Seq<char>>) -> u8 {
    match outcome {
        Outcome::Success => 0,
        Outcome::Exit(status) => status,
        Outcome::Failed(_) => 1,
    }
}

/// The status that the process ends with.
pub fn exit_status(outcome: &Outcome<String>) -> (status: u8)
    ensures
        status == status_of(outcome@),
        match outcome {
            Outcome::Success => status == 0,
            Outcome::Exit(n) => status == n,
            Outcome::Failed(_) => status == 1,
        },
{
    match outcome {
        Outcome::Success => 0,
        Outcome::Exit(status) => *status,
        Outcome::Failed(_) => 1,
    }
}

/// Law: an error never ends in the status of a success, and a success always does.
pub proof fn law_errors_have_a_status(outcome: Outcome<Seq<char>>)
    ensures
        outcome is Success ==> status_of(outcome) == 0,
        outcome is Failed ==> status_of(outcome) == 1,
        outcome matches Outcome::Exit(status) ==> status_of(outcome) == status,
{
}

/// The options and the subcommand that a parser makes of the arguments behind the name of the
/// program; none where it refuses them.
pub type Parsed<M, G, B, W> = Option<(Option<Seq<char>>, Option<Top<M, G, B, W>>)>;

/// What the suite runs for a full command line, the name of the program first: the namespace that
/// it owes to that name is put in, what is behind the name is parsed, and the result is dispatched.
/// None where the parser refuses the arguments.
pub open spec fn launched<M, G, B, W>(
    parse: spec_fn(Seq<Seq<char>>) -> Parsed<M, G, B, W>,
    args: Seq<Seq<char>>,
) -> Option<Target<M, G, B, W>> {
    match parse(with_namespace(args).skip(1)) {
        Some((tab, cmd)) => Some(dispatched(tab, cmd)),
        None => None,
    }
}

/// Law: a legacy name runs what any native name of the suite runs with the namespace written out.
pub proof fn law_legacy_name_launches_its_namespace<M, G, B, W>(
    parse: spec_fn(Seq<Seq<char>>) -> Parsed<M, G, B, W>,
    args: Seq<Seq<char>>,
    ns: Seq<char>,
    native: Seq<char>,
)
    requires
        owed_namespace(args) == Some(ns),
        owed_namespace(seq![native]) is None,
    ensures
        launched(parse, args) == launched(parse, seq![native, ns] + args.skip(1)),
{
    let written = seq![native, ns] + args.skip(1);
    law_legacy_name_is_its_namespace(args, ns);
    assert(written[0] == native);
    assert(with_namespace(args).skip(1) =~= written.skip(1));
}

/// Law: commands and units that call a legacy name keep working unchanged: they run what
/// `arieltune` runs with the namespace written out.
pub proof fn law_legacy_commands_keep_working<M, G, B, W>(
    parse: spec_fn(Seq<Seq<char>>) -> Parsed<M, G, B, W>,
    args: Seq<Seq<char>>,
    ns: Seq<char>,
)
    requires
        owed_namespace(args) == Some(ns),
    ensures
        launched(parse, args) == launched(parse, seq!["arieltune"@, ns] + args.skip(1)),
{
    lemma_arieltune_is_native();
    law_legacy_name_launches_its_namespace(parse, args, ns, "arieltune"@);
}

/// The name of the suite itself owes no namespace.
proof fn lemma_arieltune_is_native()
    ensures
        owed_namespace(seq!["arieltune"@]) is None,
{
    let name = "arieltune"@;
    reveal_strlit("arieltune");
    reveal_strlit("aputune");
    reveal_strlit("memtune");
    reveal_strlit("biostune");
    reveal_strlit("wikitune");
    reveal_with_fuel(after_slash, 10);
    assert(strip_slashes(name) == name);
    assert(after_slash(name, 9) == 0);
    assert(name.skip(0) =~= name);
    assert(last_component(name) == Some(name));
}

} // verus!
