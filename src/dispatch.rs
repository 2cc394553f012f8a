//! The dispatcher: one input line in, one outcome out, with the context
//! updated in place.

use crate::context::{switch_spec, ExceptionLevel, ExecutionContext, SwitchResult};
use crate::hint::{hint, hint_text};
use crate::registry::{find, Command, Effect, Registry};
use crate::rules::{rule_target, TransitionRule, TransitionRules};
use crate::token::{first_token, first_word};
use vstd::prelude::*;

verus! {

/// The word that ends the session.
pub open spec fn exit_word() -> Seq<char> {
    "exit"@
}

/// The word that switches from `Secure` to `NonSecure`.
pub open spec fn switch_word() -> Seq<char> {
    "switch_mode"@
}

/// The word that asks for a hint.
pub open spec fn hint_word() -> Seq<char> {
    "hint"@
}

/// The word that asks for the list of known commands.
pub open spec fn list_word() -> Seq<char> {
    "instructions"@
}

/// Words handled before the registry is consulted.
pub open spec fn is_reserved(w: Seq<char>) -> bool {
    w == exit_word() || w == switch_word() || w == hint_word() || w == list_word()
}

/// What handling a line led to.
#[derive(Debug, PartialEq, Eq)]
pub enum Outcome {
    /// The line held no word.
    Ignored,
    /// The session is to end.
    Exit,
    /// The session moved to `NonSecure`.
    ModeSwitched,
    /// The session is `NonSecure` and may not return to `Secure`.
    ModeSwitchLocked,
    /// A suggestion of what to do next.
    Hint(String),
    /// The caller is to list the registry's names.
    ListCommands,
    /// No command has this name.
    UnknownCommand(String),
    /// The command exists but needs the other mode.
    ModeDenied(String),
    /// The command ran: the caller performs `effect` once. `transitioned_to` is
    /// the level the session moved to, if a rule applied.
    Executed { name: String, effect: Effect, transitioned_to: Option<ExceptionLevel> },
}

/// An outcome with its text as character sequences.
pub enum Verdict {
    Ignored,
    Exit,
    ModeSwitched,
    ModeSwitchLocked,
    Hint(Seq<char>),
    ListCommands,
    UnknownCommand(Seq<char>),
    ModeDenied(Seq<char>),
    Executed(Seq<char>, Effect, Option<ExceptionLevel>),
}

impl View for Outcome {
    type V = Verdict;

    open spec fn view(&self) -> Verdict {
        match self {
            Outcome::Ignored => Verdict::Ignored,
            Outcome::Exit => Verdict::Exit,
            Outcome::ModeSwitched => Verdict::ModeSwitched,
            Outcome::ModeSwitchLocked => Verdict::ModeSwitchLocked,
            Outcome::Hint(s) => Verdict::Hint(s@),
            Outcome::ListCommands => Verdict::ListCommands,
            Outcome::UnknownCommand(n) => Verdict::UnknownCommand(n@),
            Outcome::ModeDenied(n) => Verdict::ModeDenied(n@),
            Outcome::Executed { name, effect, transitioned_to } => Verdict::Executed(
                name@,
                *effect,
                *transitioned_to,
            ),
        }
    }
}

/// Running the command `c`, named `name`, in context `ctx`: denied unless the
/// modes agree; otherwise it runs and the first matching rule, if any, moves
/// the level.
pub open spec fn run_command(
    rules: Seq<TransitionRule>,
    ctx: ExecutionContext,
    name: Seq<char>,
    c: Command,
) -> (Verdict, ExecutionContext) {
    if c.required_mode != ctx.mode {
        (Verdict::ModeDenied(name), ctx)
    } else {
        let next = rule_target(rules, name, ctx.level);
        let level = match next {
            Some(l) => l,
            None => ctx.level,
        };
        (Verdict::Executed(name, c.effect, next), ExecutionContext { level, ..ctx })
    }
}

/// What one line does to a session: the verdict and the context after it.
pub open spec fn step(
    registry: Seq<Command>,
    rules: Seq<TransitionRule>,
    ctx: ExecutionContext,
    line: Seq<char>,
) -> (Verdict, ExecutionContext) {
    match first_word(line) {
        None => (Verdict::Ignored, ctx),
        Some(w) => if w == exit_word() {
            (Verdict::Exit, ctx)
        } else if w == switch_word() {
            let (s, next) = switch_spec(ctx);
            match s {
                SwitchResult::Switched => (Verdict::ModeSwitched, next),
                SwitchResult::Locked => (Verdict::ModeSwitchLocked, next),
            }
        } else if w == hint_word() {
            (Verdict::Hint(hint_text(ctx.mode, ctx.level)), ctx)
        } else if w == list_word() {
            (Verdict::ListCommands, ctx)
        } else {
            match find(registry, w) {
                None => (Verdict::UnknownCommand(w), ctx),
                Some(c) => run_command(rules, ctx, w, c),
            }
        },
    }
}

/// Handles one input line: reserved words first, then a registry lookup, the
/// mode gate, and the transition rule for the level the session was at.
pub fn dispatch(
    line: &str,
    registry: &Registry,
    rules: &TransitionRules,
    ctx: &mut ExecutionContext,
) -> (r: Outcome)
    ensures
        (r@, *final(ctx)) == step(registry@, rules@, *old(ctx), line@),
{
    let word = match first_token(line) {
        None => return Outcome::Ignored,
        Some(w) => w,
    };
    if word == String::from_str("exit") {
        return Outcome::Exit;
    }
    if word == String::from_str("switch_mode") {
        return match ctx.switch_mode() {
            SwitchResult::Switched => Outcome::ModeSwitched,
            SwitchResult::Locked => Outcome::ModeSwitchLocked,
        };
    }
    if word == String::from_str("hint") {
        return Outcome::Hint(hint(ctx.mode, ctx.level));
    }
    if word == String::from_str("instructions") {
        return Outcome::ListCommands;
    }
    match registry.lookup(word.as_str()) {
        None => Outcome::UnknownCommand(word),
        Some(c) => {
            if c.required_mode != ctx.mode {
                return Outcome::ModeDenied(word);
            }
            let next = rules.next_level(word.as_str(), ctx.level);
            if let Some(l) = next {
                ctx.level = l;
            }
            Outcome::Executed { name: word, effect: c.effect, transitioned_to: next }
        },
    }
}

} // verus!
