use trustzone_sim::context::{ExceptionLevel, ExecutionContext, Mode, SwitchResult};
use trustzone_sim::dispatch::{dispatch, Outcome};
use trustzone_sim::registry::{Effect, Registry};
use trustzone_sim::rules::TransitionRules;

struct Session {
    registry: Registry,
    rules: TransitionRules,
    ctx: ExecutionContext,
}

impl Session {
    fn fresh() -> Session {
        Session {
            registry: Registry::standard(),
            rules: TransitionRules::standard(),
            ctx: ExecutionContext::new(),
        }
    }

    fn input(&mut self, line: &str) -> Outcome {
        dispatch(line, &self.registry, &self.rules, &mut self.ctx)
    }
}

fn executed(name: &str, effect: Effect, to: Option<ExceptionLevel>) -> Outcome {
    Outcome::Executed { name: name.to_string(), effect, transitioned_to: to }
}

const NONSECURE: [&str; 25] = [
    "ADD", "SUB", "AND", "ORR", "EOR", "B", "BL", "CMP", "CMN", "MOV", "MVN", "LDR", "STR",
    "VADD", "VSUB", "FADD", "FSUB", "FMUL", "VMOV", "SADD", "SSUB", "LD1", "ST1", "MATMUL", "MMV",
];

const SECURE: [&str; 6] = [
    "encrypt",
    "decrypt",
    "init_trustzone",
    "setup_virtualization",
    "init_kernel",
    "start_user_apps",
];

#[test]
fn fresh_session_add_leaves_context() {
    let mut s = Session::fresh();
    assert_eq!(s.input("ADD"), Outcome::ModeDenied("ADD".to_string()));
    assert_eq!(s.ctx, ExecutionContext { mode: Mode::Secure, level: ExceptionLevel::EL3 });
}

#[test]
fn fresh_session_add_after_switch_runs_at_el3() {
    let mut s = Session::fresh();
    assert_eq!(s.input("switch_mode"), Outcome::ModeSwitched);
    assert_eq!(s.input("ADD"), executed("ADD", Effect::Add, None));
    assert_eq!(s.ctx, ExecutionContext { mode: Mode::NonSecure, level: ExceptionLevel::EL3 });
}

#[test]
fn init_trustzone_moves_to_el2() {
    let mut s = Session::fresh();
    assert_eq!(
        s.input("init_trustzone"),
        executed("init_trustzone", Effect::InitTrustzone, Some(ExceptionLevel::EL2))
    );
    assert_eq!(s.ctx.level, ExceptionLevel::EL2);
    assert_eq!(s.ctx.mode, Mode::Secure);
}

#[test]
fn add_at_el2_in_secure_is_denied() {
    let mut s = Session::fresh();
    s.input("init_trustzone");
    let before = s.ctx;
    assert_eq!(s.input("ADD"), Outcome::ModeDenied("ADD".to_string()));
    assert_eq!(s.ctx, before);
    assert_eq!(s.ctx.level, ExceptionLevel::EL2);
}

#[test]
fn second_switch_is_locked() {
    let mut s = Session::fresh();
    assert_eq!(s.input("switch_mode"), Outcome::ModeSwitched);
    assert_eq!(s.ctx.mode, Mode::NonSecure);
    assert_eq!(s.input("switch_mode"), Outcome::ModeSwitchLocked);
    assert_eq!(s.ctx.mode, Mode::NonSecure);
}

#[test]
fn switch_stays_locked_after_other_commands() {
    let mut s = Session::fresh();
    s.input("switch_mode");
    for line in ["ADD", "encrypt", "bogus", "", "hint", "MOV r0, r1", "instructions"] {
        s.input(line);
        assert_eq!(s.ctx.mode, Mode::NonSecure);
    }
    assert_eq!(s.input("switch_mode"), Outcome::ModeSwitchLocked);
    assert_eq!(s.ctx.mode, Mode::NonSecure);
}

#[test]
fn transitions_descend_one_step_per_command() {
    let mut s = Session::fresh();
    assert_eq!(
        s.input("init_trustzone"),
        executed("init_trustzone", Effect::InitTrustzone, Some(ExceptionLevel::EL2))
    );
    assert_eq!(s.ctx.level, ExceptionLevel::EL2);
    assert_eq!(
        s.input("setup_virtualization"),
        executed("setup_virtualization", Effect::SetupVirtualization, Some(ExceptionLevel::EL1))
    );
    assert_eq!(s.ctx.level, ExceptionLevel::EL1);
    assert_eq!(
        s.input("init_kernel"),
        executed("init_kernel", Effect::InitKernel, Some(ExceptionLevel::EL0))
    );
    assert_eq!(s.ctx.level, ExceptionLevel::EL0);
    assert_eq!(s.input("start_user_apps"), executed("start_user_apps", Effect::StartUserApps, None));
    assert_eq!(s.ctx.level, ExceptionLevel::EL0);
}

#[test]
fn nonsecure_commands_run_at_every_level() {
    let steps = ["", "init_trustzone", "setup_virtualization", "init_kernel"];
    for depth in 0..steps.len() {
        let mut s = Session::fresh();
        for line in &steps[..=depth] {
            s.input(line);
        }
        let level = s.ctx.level;
        s.input("switch_mode");
        for name in NONSECURE {
            match s.input(name) {
                Outcome::Executed { name: n, transitioned_to, .. } => {
                    assert_eq!(n, name);
                    assert_eq!(transitioned_to, None);
                }
                other => panic!("{} did not run: {:?}", name, other),
            }
            assert_eq!(s.ctx, ExecutionContext { mode: Mode::NonSecure, level });
        }
    }
}

#[test]
fn secure_commands_denied_in_nonsecure() {
    let mut s = Session::fresh();
    s.input("switch_mode");
    for name in SECURE {
        assert_eq!(s.input(name), Outcome::ModeDenied(name.to_string()));
        assert_eq!(s.ctx, ExecutionContext { mode: Mode::NonSecure, level: ExceptionLevel::EL3 });
    }
}

#[test]
fn repeated_denials_keep_context() {
    let mut s = Session::fresh();
    s.input("init_trustzone");
    let before = s.ctx;
    for _ in 0..5 {
        assert_eq!(s.input("SUB"), Outcome::ModeDenied("SUB".to_string()));
        assert_eq!(s.ctx, before);
    }
}

#[test]
fn level_never_rises() {
    let rank = |l: ExceptionLevel| match l {
        ExceptionLevel::EL3 => 3,
        ExceptionLevel::EL2 => 2,
        ExceptionLevel::EL1 => 1,
        ExceptionLevel::EL0 => 0,
    };
    let lines = [
        "init_kernel", "setup_virtualization", "init_trustzone", "init_trustzone", "init_kernel",
        "setup_virtualization", "switch_mode", "init_kernel", "ADD", "init_trustzone",
    ];
    let mut s = Session::fresh();
    let mut prev = s.ctx.level;
    for line in lines {
        s.input(line);
        let now = s.ctx.level;
        assert!(now == prev || rank(now) + 1 == rank(prev));
        prev = now;
    }
    assert_eq!(s.ctx.level, ExceptionLevel::EL1);
}

#[test]
fn init_kernel_at_el3_keeps_level() {
    let mut s = Session::fresh();
    assert_eq!(s.input("init_kernel"), executed("init_kernel", Effect::InitKernel, None));
    assert_eq!(s.ctx.level, ExceptionLevel::EL3);
}

#[test]
fn unknown_token_changes_nothing() {
    let mut s = Session::fresh();
    for line in ["FOO", "add", "Init_trustzone", "quit", "EL3"] {
        let name = line.to_string();
        assert_eq!(s.input(line), Outcome::UnknownCommand(name));
        assert_eq!(s.ctx, ExecutionContext::new());
    }
}

#[test]
fn blank_lines_are_ignored() {
    let mut s = Session::fresh();
    assert_eq!(s.input(""), Outcome::Ignored);
    assert_eq!(s.input("   \t  "), Outcome::Ignored);
    assert_eq!(s.input("\u{3000}\u{a0}"), Outcome::Ignored);
    assert_eq!(s.ctx, ExecutionContext::new());
}

#[test]
fn only_first_word_counts() {
    let mut s = Session::fresh();
    assert_eq!(
        s.input("  init_trustzone now please"),
        executed("init_trustzone", Effect::InitTrustzone, Some(ExceptionLevel::EL2))
    );
    assert_eq!(s.input("\u{3000}exit\tlater"), Outcome::Exit);
}

#[test]
fn exit_is_reserved() {
    let mut s = Session::fresh();
    assert_eq!(s.input("exit"), Outcome::Exit);
    assert_eq!(s.ctx, ExecutionContext::new());
}

#[test]
fn list_request_changes_nothing() {
    let mut s = Session::fresh();
    assert_eq!(s.input("instructions"), Outcome::ListCommands);
    assert_eq!(s.ctx, ExecutionContext::new());
}

#[test]
fn hint_follows_level_and_mode() {
    let mut s = Session::fresh();
    let text = |o: Outcome| match o {
        Outcome::Hint(t) => t,
        other => panic!("no hint: {:?}", other),
    };
    assert_eq!(
        text(s.input("hint")),
        "Hint: Type 'init_trustzone' to initialize TrustZone and transition to EL2"
    );
    s.input("init_trustzone");
    assert_eq!(
        text(s.input("hint")),
        "Hint: Type 'setup_virtualization' to set up virtualization and transition to EL1"
    );
    s.input("setup_virtualization");
    assert_eq!(
        text(s.input("hint")),
        "Hint: Type 'init_kernel' to initialize the kernel and transition to EL0"
    );
    s.input("init_kernel");
    assert_eq!(
        text(s.input("hint")),
        "Hint: Perform secure operations or type 'switch_mode' to change to Non-Secure mode"
    );
    s.input("switch_mode");
    assert_eq!(
        text(s.input("hint")),
        "Hint: You can now execute Non-Secure instructions like 'ADD', 'SUB', etc."
    );
    assert_eq!(s.ctx, ExecutionContext { mode: Mode::NonSecure, level: ExceptionLevel::EL0 });
}

#[test]
fn switch_mode_on_context() {
    let mut ctx = ExecutionContext::new();
    ctx.level = ExceptionLevel::EL1;
    assert_eq!(ctx.switch_mode(), SwitchResult::Switched);
    assert_eq!(ctx, ExecutionContext { mode: Mode::NonSecure, level: ExceptionLevel::EL1 });
    assert_eq!(ctx.switch_mode(), SwitchResult::Locked);
    assert_eq!(ctx, ExecutionContext { mode: Mode::NonSecure, level: ExceptionLevel::EL1 });
}
