//! The names under which the suite can be started.
use vstd::prelude::*;

use crate::laws_scan::{is_file_name, law_file_name_of_a_path};
use crate::scan::base_name;

verus! {

/// The subcommand namespace of a tool that has become part of the suite.
pub open spec fn legacy_namespace(name: Seq<char>) -> Option<Seq<char>> {
    if name == "aputune"@ {
        Some("apu"@)
    } else if name == "memtune"@ {
        Some("mem"@)
    } else if name == "biostune"@ {
        Some("bios"@)
    } else if name == "wikitune"@ {
        Some("wiki"@)
    } else {
        None
    }
}

/// The namespace that the command line owes to the name of the program, if any.
pub open spec fn owed_namespace(args: Seq<Seq<char>>) -> Option<Seq<char>> {
    if args.len() == 0 {
        None
    } else {
        match crate::scan::file_name(args[0]) {
            Some(name) => legacy_namespace(name),
            None => None,
        }
    }
}

/// The command line with the namespace that it owes to the name of the program put behind that
/// name.
pub open spec fn with_namespace(args: Seq<Seq<char>>) -> Seq<Seq<char>> {
    match owed_namespace(args) {
        Some(ns) => args.insert(1, ns),
        None => args,
    }
}

fn namespace_of(name: &String) -> (ns: Option<String>)
    ensures
        ns.deep_view() == legacy_namespace(name@),
{
    if *name == "aputune".to_owned() {
        Some("apu".to_owned())
    } else if *name == "memtune".to_owned() {
        Some("mem".to_owned())
    } else if *name == "biostune".to_owned() {
        Some("bios".to_owned())
    } else if *name == "wikitune".to_owned() {
        Some("wiki".to_owned())
    } else {
        None
    }
}

/// Given the full command line, puts the subcommand namespace of a legacy tool behind the name of
/// the program, where the last component of that name is the name of such a tool.
pub fn inject_compat_namespace(args: Vec<String>) -> (out: Vec<String>)
    ensures
        out.deep_view() == with_namespace(args.deep_view()),
{
    let mut out: Vec<String> = args;
    if out.len() > 0 {
        let base: Option<String> = base_name(out[0].as_str());
        if let Some(name) = base {
            if let Some(ns) = namespace_of(&name) {
                out.insert(1, ns);
                assert(out.deep_view() =~= args.deep_view().insert(1, ns@));
            }
        }
    }
    out
}

/// Law: the name of the program stays first, and every argument behind it stays in its place, or in
/// the next one where a namespace was put in between.
pub proof fn law_arguments_are_kept(args: Seq<Seq<char>>)
    ensures
        args.len() == 0 ==> with_namespace(args) == args,
        args.len() > 0 ==> {
            let out = with_namespace(args);
            let shift: int = out.len() - args.len();
            &&& out[0] == args[0]
            &&& shift == if owed_namespace(args) is Some {
                1int
            } else {
                0int
            }
            &&& forall|i: int| 1 <= i < args.len() ==> out[i + shift] == #[trigger] args[i]
        },
{
}

/// Law: the command line of a legacy name gets the namespace behind that name, and keeps its
/// arguments behind the namespace.
pub proof fn law_legacy_name_is_its_namespace(args: Seq<Seq<char>>, ns: Seq<char>)
    requires
        owed_namespace(args) == Some(ns),
    ensures
        with_namespace(args) == seq![args[0], ns] + args.skip(1),
{
    assert(with_namespace(args) =~= seq![args[0], ns] + args.skip(1));
}

/// Law: a name that is none of the legacy ones changes nothing.
pub proof fn law_native_name_passes_through(args: Seq<Seq<char>>, name: Seq<char>)
    requires
        args.len() > 0,
        crate::scan::file_name(args[0]) == Some(name),
        name != "aputune"@,
        name != "memtune"@,
        name != "biostune"@,
        name != "wikitune"@,
    ensures
        with_namespace(args) == args,
{
}

/// Law: each of the four legacy names stands for its own namespace, wherever the program lies; every
/// other name stands for none.
pub proof fn law_four_legacy_names(args: Seq<Seq<char>>, dir: Seq<char>, name: Seq<char>)
    requires
        args.len() > 0,
        is_file_name(name),
        args[0] == name || args[0] == dir + seq!['/'] + name,
    ensures
        name == "aputune"@ ==> with_namespace(args)[1] == "apu"@,
        name == "memtune"@ ==> with_namespace(args)[1] == "mem"@,
        name == "biostune"@ ==> with_namespace(args)[1] == "bios"@,
        name == "wikitune"@ ==> with_namespace(args)[1] == "wiki"@,
        with_namespace(args).len() == args.len() + if name == "aputune"@ || name == "memtune"@
            || name == "biostune"@ || name == "wikitune"@ {
            1int
        } else {
            0int
        },
{
    law_file_name_of_a_path(dir, name);
    reveal_strlit("aputune");
    reveal_strlit("memtune");
    reveal_strlit("biostune");
    reveal_strlit("wikitune");
    assert("aputune"@[0] == 'a');
    assert("memtune"@[0] == 'm');
    assert("biostune"@[0] == 'b');
    assert("wikitune"@[0] == 'w');
}

} // verus!
