use trustzone_sim::context::{ExceptionLevel, Mode};
use trustzone_sim::hint::hint;
use trustzone_sim::registry::{Command, Effect, Registry, RegistryError};
use trustzone_sim::rules::TransitionRules;
use trustzone_sim::token::first_token;

fn entry(name: &str, effect: Effect, required_mode: Mode) -> Command {
    Command { name: name.to_string(), effect, required_mode }
}

#[test]
fn standard_registry_contents() {
    let reg = Registry::standard();
    let names = reg.names();
    assert_eq!(names.len(), 31);
    assert_eq!(names[0], "ADD");
    assert_eq!(names[30], "start_user_apps");
    let add = reg.lookup("ADD").unwrap();
    assert_eq!(add.effect, Effect::Add);
    assert_eq!(add.required_mode, Mode::NonSecure);
    let enc = reg.lookup("encrypt").unwrap();
    assert_eq!(enc.effect, Effect::Encrypt);
    assert_eq!(enc.required_mode, Mode::Secure);
    let mut sorted = names.clone();
    sorted.sort();
    sorted.dedup();
    assert_eq!(sorted.len(), 31);
}

#[test]
fn lookup_is_exact_and_case_sensitive() {
    let reg = Registry::standard();
    assert!(reg.lookup("add").is_none());
    assert!(reg.lookup("ADD ").is_none());
    assert!(reg.lookup("AD").is_none());
    assert!(reg.lookup("").is_none());
    assert_eq!(reg.lookup("MMV").unwrap().effect, Effect::Mmv);
}

#[test]
fn duplicate_names_are_rejected() {
    let r = Registry::from_commands(vec![
        entry("X", Effect::Add, Mode::NonSecure),
        entry("Y", Effect::Sub, Mode::NonSecure),
        entry("X", Effect::Encrypt, Mode::Secure),
    ]);
    assert_eq!(r.err(), Some(RegistryError::DuplicateName("X".to_string())));
}

#[test]
fn distinct_names_build_a_registry() {
    let reg = Registry::from_commands(vec![
        entry("go", Effect::B, Mode::NonSecure),
        entry("lock", Effect::Encrypt, Mode::Secure),
    ])
    .unwrap();
    assert_eq!(reg.names(), vec!["go".to_string(), "lock".to_string()]);
    assert_eq!(reg.lookup("lock").unwrap().effect, Effect::Encrypt);
    assert!(reg.lookup("ADD").is_none());
}

#[test]
fn empty_registry_is_allowed() {
    let reg = Registry::from_commands(Vec::new()).unwrap();
    assert!(reg.names().is_empty());
    assert!(reg.lookup("ADD").is_none());
}

#[test]
fn effect_messages() {
    assert_eq!(Effect::Add.message(), "Executed ADD instruction");
    assert_eq!(Effect::Matmul.message(), "Executed MATMUL instruction");
    assert_eq!(Effect::Decrypt.message(), "Executed DECRYPT instruction");
    assert_eq!(Effect::InitTrustzone.message(), "Initialized TrustZone in EL3");
    assert_eq!(Effect::SetupVirtualization.message(), "Set up virtualization in EL2");
    assert_eq!(Effect::InitKernel.message(), "Kernel initialized in EL1");
    assert_eq!(Effect::StartUserApps.message(), "User space applications started in EL0");
}

#[test]
fn rule_table() {
    let rules = TransitionRules::standard();
    assert_eq!(rules.next_level("init_trustzone", ExceptionLevel::EL3), Some(ExceptionLevel::EL2));
    assert_eq!(
        rules.next_level("setup_virtualization", ExceptionLevel::EL2),
        Some(ExceptionLevel::EL1)
    );
    assert_eq!(rules.next_level("init_kernel", ExceptionLevel::EL1), Some(ExceptionLevel::EL0));
    assert_eq!(rules.next_level("init_kernel", ExceptionLevel::EL3), None);
    assert_eq!(rules.next_level("init_trustzone", ExceptionLevel::EL2), None);
    assert_eq!(rules.next_level("start_user_apps", ExceptionLevel::EL0), None);
    assert_eq!(rules.next_level("ADD", ExceptionLevel::EL3), None);
}

#[test]
fn hint_at_el0_depends_on_mode() {
    assert_ne!(hint(Mode::Secure, ExceptionLevel::EL0), hint(Mode::NonSecure, ExceptionLevel::EL0));
    assert_eq!(hint(Mode::Secure, ExceptionLevel::EL3), hint(Mode::NonSecure, ExceptionLevel::EL3));
}

#[test]
fn tokenizer_takes_first_word() {
    assert_eq!(first_token("  LDR r0, [r1]"), Some("LDR".to_string()));
    assert_eq!(first_token("\tB\n"), Some("B".to_string()));
    assert_eq!(first_token("\u{2003}héllo wörld"), Some("héllo".to_string()));
    assert_eq!(first_token(" \n\t "), None);
    assert_eq!(first_token(""), None);
}
