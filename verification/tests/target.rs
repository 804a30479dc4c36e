use llvm_rs::target::{Target, TargetMachine};

fn x86() -> Target {
    Target {
        handle: 5,
        name: "x86-64".to_string(),
        description: "64-bit X86: EM64T and AMD64".to_string(),
        asm_backend: true,
        jit: true,
        target_machine: true,
    }
}

#[test]
fn target_machine_is_made_when_the_machine_is_there() {
    let machine = TargetMachine::new("x86_64-unknown-linux-gnu", x86(), 77).unwrap();
    assert_eq!(machine.get_handle(), 77);
    assert_eq!(machine.get_triple(), "x86_64-unknown-linux-gnu");
    assert_eq!(machine.get_target(), &x86());
}

#[test]
fn found_target_is_handed_on() {
    assert_eq!(TargetMachine::find_target("x86_64-unknown-linux-gnu", Ok(x86())), Ok(x86()));
}

#[test]
fn missing_target_names_triple_and_reason() {
    let found = TargetMachine::find_target(
        "mips-unknown-none",
        Err("No available targets are compatible with triple".to_string()),
    );
    assert_eq!(
        found.unwrap_err(),
        "Unable to get an LLVM target reference for mips-unknown-none: No available targets are \
         compatible with triple"
    );
}

#[test]
fn missing_machine_names_the_triple() {
    let made = TargetMachine::new("x86_64-unknown-linux-gnu", x86(), 0);
    assert_eq!(
        made.unwrap_err(),
        "Unable to get a LLVM target machine for x86_64-unknown-linux-gnu"
    );
}

#[test]
fn empty_triple_and_reason_leave_the_fixed_text() {
    assert_eq!(
        TargetMachine::find_target("", Err(String::new())).unwrap_err(),
        "Unable to get an LLVM target reference for : "
    );
    assert_eq!(
        TargetMachine::new("", x86(), 0).unwrap_err(),
        "Unable to get a LLVM target machine for "
    );
}

#[test]
fn targets_report_what_they_hold() {
    let target = x86();
    assert_eq!(target.get_name(), "x86-64");
    assert_eq!(target.get_description(), "64-bit X86: EM64T and AMD64");
    assert!(target.has_asm_backend());
    assert!(target.has_jit());
    assert!(target.has_target_machine());
    let bare = Target { asm_backend: false, jit: false, target_machine: false, ..x86() };
    assert!(!bare.has_asm_backend());
    assert!(!bare.has_jit());
    assert!(!bare.has_target_machine());
}

#[test]
fn machine_describes_a_target() {
    let machine = TargetMachine::new("x86_64-unknown-linux-gnu", x86(), 1).unwrap();
    let other = Target { description: "another".to_string(), ..x86() };
    assert_eq!(machine.get_description(&other), "another");
}
