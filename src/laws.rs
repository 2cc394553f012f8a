//! What holds of every session, over any registry, rule table and input.

use crate::context::{next_lower, rank, ExceptionLevel, ExecutionContext, Mode};
use crate::dispatch::{exit_word, hint_word, is_reserved, list_word, step, switch_word, Verdict};
use crate::registry::{find, Command};
use crate::rules::{is_standard, lemma_target_is_next_lower, rule_target, steps_down, TransitionRule};
use crate::token::first_word;
use vstd::prelude::*;

verus! {

/// The context after handling each of `lines` in turn.
pub open spec fn run(
    registry: Seq<Command>,
    rules: Seq<TransitionRule>,
    ctx: ExecutionContext,
    lines: Seq<Seq<char>>,
) -> ExecutionContext
    decreases lines.len(),
{
    if lines.len() == 0 {
        ctx
    } else {
        run(registry, rules, step(registry, rules, ctx, lines[0]).1, lines.drop_first())
    }
}

/// A command that needs `NonSecure` runs whenever the session is `NonSecure`,
/// at whatever level it stands.
pub proof fn lemma_nonsecure_command_runs(
    registry: Seq<Command>,
    rules: Seq<TransitionRule>,
    ctx: ExecutionContext,
    line: Seq<char>,
    c: Command,
)
    requires
        first_word(line) == Some(c.name@),
        !is_reserved(c.name@),
        find(registry, c.name@) == Some(c),
        c.required_mode == Mode::NonSecure,
        ctx.mode == Mode::NonSecure,
    ensures
        step(registry, rules, ctx, line).0 == Verdict::Executed(
            c.name@,
            c.effect,
            rule_target(rules, c.name@, ctx.level),
        ),
        step(registry, rules, ctx, line).1.mode == Mode::NonSecure,
{
}

/// A command that needs `Secure` is denied while the session is `NonSecure`,
/// and nothing changes.
pub proof fn lemma_secure_command_denied(
    registry: Seq<Command>,
    rules: Seq<TransitionRule>,
    ctx: ExecutionContext,
    line: Seq<char>,
    c: Command,
)
    requires
        first_word(line) == Some(c.name@),
        !is_reserved(c.name@),
        find(registry, c.name@) == Some(c),
        c.required_mode == Mode::Secure,
        ctx.mode == Mode::NonSecure,
    ensures
        step(registry, rules, ctx, line) == (Verdict::ModeDenied(c.name@), ctx),
{
}

/// A denied line leaves the context as it was, so any number of denied lines
/// in a row do too.
pub proof fn lemma_denials_keep_context(
    registry: Seq<Command>,
    rules: Seq<TransitionRule>,
    ctx: ExecutionContext,
    lines: Seq<Seq<char>>,
)
    requires
        forall|i: int| 0 <= i < lines.len() ==> #[trigger] step(registry, rules, ctx, lines[i]).0 is ModeDenied,
    ensures
        run(registry, rules, ctx, lines) == ctx,
    decreases lines.len(),
{
    if lines.len() > 0 {
        assert(step(registry, rules, ctx, lines[0]).0 is ModeDenied);
        assert forall|i: int| 0 <= i < lines.drop_first().len() implies #[trigger] step(
            registry,
            rules,
            ctx,
            lines.drop_first()[i],
        ).0 is ModeDenied by {
            assert(lines.drop_first()[i] == lines[i + 1]);
        }
        lemma_denials_keep_context(registry, rules, ctx, lines.drop_first());
    }
}

/// Once `NonSecure`, a session stays `NonSecure` whatever it is given.
pub proof fn lemma_nonsecure_is_kept(
    registry: Seq<Command>,
    rules: Seq<TransitionRule>,
    ctx: ExecutionContext,
    lines: Seq<Seq<char>>,
)
    requires
        ctx.mode == Mode::NonSecure,
    ensures
        run(registry, rules, ctx, lines).mode == Mode::NonSecure,
    decreases lines.len(),
{
    if lines.len() > 0 {
        lemma_nonsecure_is_kept(
            registry,
            rules,
            step(registry, rules, ctx, lines[0]).1,
            lines.drop_first(),
        );
    }
}

/// From `Secure`, a first mode switch succeeds; any later one, whatever ran in
/// between, is refused and leaves the session `NonSecure`.
pub proof fn lemma_switch_is_one_shot(
    registry: Seq<Command>,
    rules: Seq<TransitionRule>,
    ctx: ExecutionContext,
    first: Seq<char>,
    between: Seq<Seq<char>>,
    second: Seq<char>,
)
    requires
        ctx.mode == Mode::Secure,
        first_word(first) == Some(switch_word()),
        first_word(second) == Some(switch_word()),
    ensures
        step(registry, rules, ctx, first) == (
            Verdict::ModeSwitched,
            ExecutionContext { mode: Mode::NonSecure, ..ctx },
        ),
        ({
            let later = run(registry, rules, step(registry, rules, ctx, first).1, between);
            later.mode == Mode::NonSecure && step(registry, rules, later, second) == (
                Verdict::ModeSwitchLocked,
                later,
            )
        }),
{
    reveal_strlit("exit");
    reveal_strlit("switch_mode");
    assert(switch_word().len() != exit_word().len());
    let after = step(registry, rules, ctx, first).1;
    lemma_nonsecure_is_kept(registry, rules, after, between);
}

/// One line moves the level one step down or not at all, and never touches a
/// `NonSecure` mode.
pub proof fn lemma_step_moves_down(
    registry: Seq<Command>,
    rules: Seq<TransitionRule>,
    ctx: ExecutionContext,
    line: Seq<char>,
)
    requires
        steps_down(rules),
    ensures
        ({
            let next = step(registry, rules, ctx, line).1;
            next.level == ctx.level || next_lower(ctx.level) == Some(next.level)
        }),
{
    if let Some(w) = first_word(line) {
        if rule_target(rules, w, ctx.level) is Some {
            lemma_target_is_next_lower(rules, w, ctx.level);
        }
    }
}

/// Over any sequence of lines the level never becomes more privileged.
pub proof fn lemma_level_never_rises(
    registry: Seq<Command>,
    rules: Seq<TransitionRule>,
    ctx: ExecutionContext,
    lines: Seq<Seq<char>>,
)
    requires
        steps_down(rules),
    ensures
        rank(run(registry, rules, ctx, lines).level) <= rank(ctx.level),
    decreases lines.len(),
{
    if lines.len() > 0 {
        let next = step(registry, rules, ctx, lines[0]).1;
        lemma_step_moves_down(registry, rules, ctx, lines[0]);
        lemma_level_never_rises(registry, rules, next, lines.drop_first());
    }
}

/// A command that runs but matches no rule for the current level leaves the
/// level where it is.
pub proof fn lemma_unmatched_rule_keeps_level(
    registry: Seq<Command>,
    rules: Seq<TransitionRule>,
    ctx: ExecutionContext,
    line: Seq<char>,
    c: Command,
)
    requires
        first_word(line) == Some(c.name@),
        !is_reserved(c.name@),
        find(registry, c.name@) == Some(c),
        c.required_mode == ctx.mode,
        rule_target(rules, c.name@, ctx.level) is None,
    ensures
        step(registry, rules, ctx, line) == (Verdict::Executed(c.name@, c.effect, None), ctx),
{
}

/// With the standard rules, `init_kernel` at `EL3` runs when the mode allows
/// it, and the level stays `EL3`.
pub proof fn lemma_init_kernel_at_el3(
    registry: Seq<Command>,
    rules: Seq<TransitionRule>,
    ctx: ExecutionContext,
    line: Seq<char>,
    c: Command,
)
    requires
        is_standard(rules),
        ctx.level == ExceptionLevel::EL3,
        c.name@ == "init_kernel"@,
        first_word(line) == Some(c.name@),
        find(registry, c.name@) == Some(c),
        c.required_mode == ctx.mode,
    ensures
        step(registry, rules, ctx, line) == (Verdict::Executed(c.name@, c.effect, None), ctx),
{
    reveal_strlit("init_kernel");
    reveal_strlit("init_trustzone");
    reveal_strlit("exit");
    reveal_strlit("switch_mode");
    reveal_strlit("hint");
    reveal_strlit("instructions");
    assert("init_kernel"@.len() != exit_word().len());
    assert("init_kernel"@.len() != hint_word().len());
    assert("init_kernel"@.len() != list_word().len());
    assert("init_kernel"@.len() != "init_trustzone"@.len());
    assert("init_kernel"@[0] != switch_word()[0]);
    let (n, l) = (c.name@, ctx.level);
    let r1 = rules.drop_first();
    let r2 = r1.drop_first();
    let r3 = r2.drop_first();
    assert(r1[0] == rules[1] && r2[0] == rules[2] && r3.len() == 0);
    assert(rule_target(r3, n, l) is None);
    assert(rule_target(r2, n, l) is None);
    assert(rule_target(r1, n, l) is None);
    assert(rule_target(rules, n, l) is None);
    lemma_unmatched_rule_keeps_level(registry, rules, ctx, line, c);
}

/// A word that is neither reserved nor registered is reported unknown, and
/// nothing changes.
pub proof fn lemma_unknown_word(
    registry: Seq<Command>,
    rules: Seq<TransitionRule>,
    ctx: ExecutionContext,
    line: Seq<char>,
    w: Seq<char>,
)
    requires
        first_word(line) == Some(w),
        !is_reserved(w),
        find(registry, w) is None,
    ensures
        step(registry, rules, ctx, line) == (Verdict::UnknownCommand(w), ctx),
{
}

} // verus!
