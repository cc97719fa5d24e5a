use arieltune::compat::inject_compat_namespace;

fn v(a: &[&str]) -> Vec<String> {
    a.iter().map(|s| s.to_string()).collect()
}

#[test]
fn legacy_names_inject_namespace() {
    assert_eq!(
        inject_compat_namespace(v(&["/usr/local/bin/aputune", "gpu", "apply-boot"])),
        v(&["/usr/local/bin/aputune", "apu", "gpu", "apply-boot"])
    );
    assert_eq!(
        inject_compat_namespace(v(&["biostune", "--image", "x.bin", "apcb", "status"])),
        v(&["biostune", "bios", "--image", "x.bin", "apcb", "status"])
    );
    assert_eq!(
        inject_compat_namespace(v(&["memtune"])),
        v(&["memtune", "mem"])
    );
}

#[test]
fn native_names_pass_through() {
    assert_eq!(
        inject_compat_namespace(v(&["/usr/local/bin/arieltune", "apu", "doctor"])),
        v(&["/usr/local/bin/arieltune", "apu", "doctor"])
    );
    assert_eq!(
        inject_compat_namespace(v(&["at", "mem"])),
        v(&["at", "mem"])
    );
}
