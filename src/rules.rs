//! The transition rules: which command, run at which level, moves the session
//! one level down.

use crate::context::{next_lower, ExceptionLevel};
use vstd::prelude::*;

verus! {

/// Running `command` at level `from` moves the session to level `to`.
#[derive(Debug, PartialEq, Eq)]
pub struct TransitionRule {
    pub from: ExceptionLevel,
    pub command: String,
    pub to: ExceptionLevel,
}

/// The target of the first rule of `rules` that starts at `level` and is
/// triggered by `name`.
pub open spec fn rule_target(rules: Seq<TransitionRule>, name: Seq<char>, level: ExceptionLevel) -> Option<
    ExceptionLevel,
>
    decreases rules.len(),
{
    if rules.len() == 0 {
        None
    } else if rules[0].from == level && rules[0].command@ == name {
        Some(rules[0].to)
    } else {
        rule_target(rules.drop_first(), name, level)
    }
}

/// Every rule moves exactly one level down.
pub open spec fn steps_down(rules: Seq<TransitionRule>) -> bool {
    forall|i: int| 0 <= i < rules.len() ==> next_lower(#[trigger] rules[i].from) == Some(rules[i].to)
}

/// A rule applies only one level down from where it starts.
pub proof fn lemma_target_is_next_lower(rules: Seq<TransitionRule>, name: Seq<char>, level: ExceptionLevel)
    requires
        steps_down(rules),
        rule_target(rules, name, level) is Some,
    ensures
        rule_target(rules, name, level) == next_lower(level),
    decreases rules.len(),
{
    if rules[0].from == level && rules[0].command@ == name {
        assert(next_lower(rules[0].from) == Some(rules[0].to));
    } else {
        assert forall|i: int| 0 <= i < rules.drop_first().len() implies next_lower(
            #[trigger] rules.drop_first()[i].from,
        ) == Some(rules.drop_first()[i].to) by {
            assert(rules.drop_first()[i] == rules[i + 1]);
        }
        lemma_target_is_next_lower(rules.drop_first(), name, level);
    }
}

/// The table of this simulator, in order.
pub open spec fn is_standard(rules: Seq<TransitionRule>) -> bool {
    &&& rules.len() == 3
    &&& rules[0].from == ExceptionLevel::EL3 && rules[0].command@ == "init_trustzone"@
        && rules[0].to == ExceptionLevel::EL2
    &&& rules[1].from == ExceptionLevel::EL2 && rules[1].command@ == "setup_virtualization"@
        && rules[1].to == ExceptionLevel::EL1
    &&& rules[2].from == ExceptionLevel::EL1 && rules[2].command@ == "init_kernel"@
        && rules[2].to == ExceptionLevel::EL0
}

/// The fixed table of level transitions, each a single step down.
pub struct TransitionRules {
    rules: Vec<TransitionRule>,
}

impl View for TransitionRules {
    type V = Seq<TransitionRule>;

    closed spec fn view(&self) -> Seq<TransitionRule> {
        self.rules@
    }
}

impl TransitionRules {
    #[verifier::type_invariant]
    pub closed spec fn inv(&self) -> bool {
        steps_down(self.rules@)
    }

    /// Every rule of a table moves exactly one level down.
    pub proof fn lemma_steps_down(&self)
        requires
            self.inv(),
        ensures
            steps_down(self@),
    {
    }

    /// The table of this simulator: `init_trustzone` takes `EL3` to `EL2`,
    /// `setup_virtualization` takes `EL2` to `EL1`, `init_kernel` takes `EL1`
    /// to `EL0`. Nothing leaves `EL0`.
    pub fn standard() -> (r: TransitionRules)
        ensures
            is_standard(r@),
    {
        let mut rules: Vec<TransitionRule> = Vec::new();
        rules.push(
            TransitionRule {
                from: ExceptionLevel::EL3,
                command: String::from_str("init_trustzone"),
                to: ExceptionLevel::EL2,
            },
        );
        rules.push(
            TransitionRule {
                from: ExceptionLevel::EL2,
                command: String::from_str("setup_virtualization"),
                to: ExceptionLevel::EL1,
            },
        );
        rules.push(
            TransitionRule {
                from: ExceptionLevel::EL1,
                command: String::from_str("init_kernel"),
                to: ExceptionLevel::EL0,
            },
        );
        TransitionRules { rules }
    }

    /// The level that running `command_name` at `current` leads to, if a rule
    /// applies.
    pub fn next_level(&self, command_name: &str, current: ExceptionLevel) -> (r: Option<
        ExceptionLevel,
    >)
        ensures
            r == rule_target(self@, command_name@, current),
            r is Some ==> r == next_lower(current),
    {
        proof {
            use_type_invariant(self);
            if rule_target(self@, command_name@, current) is Some {
                lemma_target_is_next_lower(self@, command_name@, current);
            }
        }
        let key = String::from_str(command_name);
        let n = self.rules.len();
        let mut i: usize = 0;
        assert(self@.subrange(0, n as int) =~= self@);
        while i < n
            invariant
                n == self@.len(),
                i <= n,
                key@ == command_name@,
                rule_target(self@, key@, current) is Some ==> rule_target(self@, key@, current)
                    == next_lower(current),
                rule_target(self@, key@, current) == rule_target(
                    self@.subrange(i as int, n as int),
                    key@,
                    current,
                ),
            decreases n - i,
        {
            assert(self@.subrange(i as int, n as int).drop_first() =~= self@.subrange(
                i as int + 1,
                n as int,
            ));
            if self.rules[i].from == current && self.rules[i].command == key {
                return Some(self.rules[i].to);
            }
            i = i + 1;
        }
        assert(self@.subrange(n as int, n as int).len() == 0);
        None
    }
}

} // verus!
