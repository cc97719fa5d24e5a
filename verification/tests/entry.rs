use arieltune::commands::{Cmd, GpuCmd};
use arieltune::compat::inject_compat_namespace;
use arieltune::entry::{dispatch, error_line, exit_status, Entry, Top};
use arieltune::model::Fault;
use arieltune::plan::Outcome;

type Sub = Top<u8, char, u16, u32>;

fn shell(tab: Option<&str>) -> Entry<u8, char, u16, u32> {
    Entry::Shell { tab: tab.map(|t| t.to_string()) }
}

#[test]
fn bare_subcommands_open_their_tab() {
    assert_eq!(dispatch(None, None::<Sub>), shell(None));
    assert_eq!(dispatch(None, Some(Sub::Tui)), shell(None));
    assert_eq!(dispatch(None, Some(Sub::Apu { cmd: None })), shell(Some("apu")));
    assert_eq!(dispatch(None, Some(Sub::Mem { cmd: None })), shell(Some("mem")));
    assert_eq!(dispatch(None, Some(Sub::Bios { global: 'g', cmd: None })), shell(Some("bios")));
    assert_eq!(dispatch(None, Some(Sub::Wiki { cmd: None })), shell(Some("wiki")));
}

#[test]
fn tab_option_wins() {
    let tab = || Some("mem".to_string());
    assert_eq!(dispatch(tab(), Some(Sub::Apu { cmd: None })), shell(Some("mem")));
    assert_eq!(dispatch(tab(), None::<Sub>), shell(Some("mem")));
    assert_eq!(dispatch(tab(), Some(Sub::Wiki { cmd: Some(4) })), Entry::Wiki(4));
}

#[test]
fn subcommands_with_commands_are_run() {
    let poke = Cmd::Gpu { action: GpuCmd::Poke };
    assert_eq!(
        dispatch(None, Some(Sub::Apu { cmd: Some(poke.clone()) })),
        Entry::Apu(poke)
    );
    assert_eq!(dispatch(None, Some(Sub::Mem { cmd: Some(1) })), Entry::Mem(1));
    assert_eq!(
        dispatch(None, Some(Sub::Bios { global: 'g', cmd: Some(2) })),
        Entry::Bios { global: 'g', cmd: 2 }
    );
    assert_eq!(
        dispatch(None, Some(Sub::Migrate { apply: true })),
        Entry::Migrate { apply: true }
    );
    assert_eq!(
        dispatch(None, Some(Sub::Uninstall { apply: false, purge: true, revert_hw: false })),
        Entry::Uninstall { apply: false, purge: true, revert_hw: false }
    );
}

#[test]
fn errors_are_one_line() {
    let f = Fault { message: "outer".to_string(), chain: "outer: inner".to_string() };
    assert_eq!(error_line(&f), "error: outer: inner");
    assert_eq!(exit_status(&Outcome::Failed(f)), 1);
    assert_eq!(exit_status(&Outcome::Success), 0);
    assert_eq!(exit_status(&Outcome::Exit(3)), 3);
}

/// Dispatches a full command line, of the few that the test below uses.
fn launch(argv: &[&str]) -> Option<Entry<u8, char, u16, u32>> {
    let args = inject_compat_namespace(argv.iter().map(|a| a.to_string()).collect());
    let rest: Vec<&str> = args[1..].iter().map(|a| a.as_str()).collect();
    let (tab, cmd) = match rest.as_slice() {
        [] => (None, None),
        ["apu"] => (None, Some(Sub::Apu { cmd: None })),
        ["apu", "--tab", tab] => (Some(tab.to_string()), Some(Sub::Apu { cmd: None })),
        ["apu", "gpu", "apply-boot"] => {
            (None, Some(Sub::Apu { cmd: Some(Cmd::Gpu { action: GpuCmd::ApplyBoot }) }))
        }
        ["mem", "show"] => (None, Some(Sub::Mem { cmd: Some(7) })),
        ["bios"] => (None, Some(Sub::Bios { global: 'g', cmd: None })),
        ["wiki"] => (None, Some(Sub::Wiki { cmd: None })),
        _ => return None,
    };
    Some(dispatch(tab, cmd))
}

#[test]
fn legacy_commands_keep_working() {
    let boot = Entry::Apu(Cmd::Gpu { action: GpuCmd::ApplyBoot });
    assert_eq!(launch(&["/usr/local/bin/aputune", "gpu", "apply-boot"]), Some(boot.clone()));
    assert_eq!(launch(&["arieltune", "apu", "gpu", "apply-boot"]), Some(boot));
    assert_eq!(launch(&["aputune"]), Some(shell(Some("apu"))));
    assert_eq!(launch(&["aputune"]), launch(&["arieltune", "apu"]));
    assert_eq!(launch(&["aputune", "--tab", "mem"]), Some(shell(Some("mem"))));
    assert_eq!(launch(&["aputune", "--tab", "mem"]), launch(&["arieltune", "apu", "--tab", "mem"]));
    assert_eq!(launch(&["memtune", "show"]), Some(Entry::Mem(7)));
    assert_eq!(launch(&["memtune", "show"]), launch(&["at", "mem", "show"]));
    assert_eq!(launch(&["biostune"]), Some(shell(Some("bios"))));
    assert_eq!(launch(&["wikitune"]), Some(shell(Some("wiki"))));
    assert_eq!(launch(&["arieltune"]), Some(shell(None)));
    assert_eq!(launch(&["aputune", "apu"]), None);
}
