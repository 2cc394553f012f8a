//! The command registry: each known command's name, its effect and the mode
//! it needs.

use crate::context::Mode;
use vstd::prelude::*;

verus! {

/// What a command does when it runs. The registry only carries the tag; the
/// caller performs it, for instance by printing `message()`.
#[derive(Debug, Clone, Copy, PartialEq, Eq, Structural)]
pub enum Effect {
    Add,
    Sub,
    And,
    Orr,
    Eor,
    B,
    Bl,
    Cmp,
    Cmn,
    Mov,
    Mvn,
    Ldr,
    Str,
    Vadd,
    Vsub,
    Fadd,
    Fsub,
    Fmul,
    Vmov,
    Sadd,
    Ssub,
    Ld1,
    St1,
    Matmul,
    Mmv,
    Encrypt,
    Decrypt,
    InitTrustzone,
    SetupVirtualization,
    InitKernel,
    StartUserApps,
}

/// The line an effect reports when it runs.
pub open spec fn message_of(e: Effect) -> Seq<char> {
    match e {
        Effect::Add => "Executed ADD instruction"@,
        Effect::Sub => "Executed SUB instruction"@,
        Effect::And => "Executed AND instruction"@,
        Effect::Orr => "Executed ORR instruction"@,
        Effect::Eor => "Executed EOR instruction"@,
        Effect::B => "Executed B instruction"@,
        Effect::Bl => "Executed BL instruction"@,
        Effect::Cmp => "Executed CMP instruction"@,
        Effect::Cmn => "Executed CMN instruction"@,
        Effect::Mov => "Executed MOV instruction"@,
        Effect::Mvn => "Executed MVN instruction"@,
        Effect::Ldr => "Executed LDR instruction"@,
        Effect::Str => "Executed STR instruction"@,
        Effect::Vadd => "Executed VADD instruction"@,
        Effect::Vsub => "Executed VSUB instruction"@,
        Effect::Fadd => "Executed FADD instruction"@,
        Effect::Fsub => "Executed FSUB instruction"@,
        Effect::Fmul => "Executed FMUL instruction"@,
        Effect::Vmov => "Executed VMOV instruction"@,
        Effect::Sadd => "Executed SADD instruction"@,
        Effect::Ssub => "Executed SSUB instruction"@,
        Effect::Ld1 => "Executed LD1 instruction"@,
        Effect::St1 => "Executed ST1 instruction"@,
        Effect::Matmul => "Executed MATMUL instruction"@,
        Effect::Mmv => "Executed MMV instruction"@,
        Effect::Encrypt => "Executed ENCRYPT instruction"@,
        Effect::Decrypt => "Executed DECRYPT instruction"@,
        Effect::InitTrustzone => "Initialized TrustZone in EL3"@,
        Effect::SetupVirtualization => "Set up virtualization in EL2"@,
        Effect::InitKernel => "Kernel initialized in EL1"@,
        Effect::StartUserApps => "User space applications started in EL0"@,
    }
}

impl Effect {
    /// The line this effect reports when it runs.
    pub fn message(&self) -> (r: String)
        ensures
            r@ == message_of(*self),
    {
        match self {
            Effect::Add => String::from_str("Executed ADD instruction"),
            Effect::Sub => String::from_str("Executed SUB instruction"),
            Effect::And => String::from_str("Executed AND instruction"),
            Effect::Orr => String::from_str("Executed ORR instruction"),
            Effect::Eor => String::from_str("Executed EOR instruction"),
            Effect::B => String::from_str("Executed B instruction"),
            Effect::Bl => String::from_str("Executed BL instruction"),
            Effect::Cmp => String::from_str("Executed CMP instruction"),
            Effect::Cmn => String::from_str("Executed CMN instruction"),
            Effect::Mov => String::from_str("Executed MOV instruction"),
            Effect::Mvn => String::from_str("Executed MVN instruction"),
            Effect::Ldr => String::from_str("Executed LDR instruction"),
            Effect::Str => String::from_str("Executed STR instruction"),
            Effect::Vadd => String::from_str("Executed VADD instruction"),
            Effect::Vsub => String::from_str("Executed VSUB instruction"),
            Effect::Fadd => String::from_str("Executed FADD instruction"),
            Effect::Fsub => String::from_str("Executed FSUB instruction"),
            Effect::Fmul => String::from_str("Executed FMUL instruction"),
            Effect::Vmov => String::from_str("Executed VMOV instruction"),
            Effect::Sadd => String::from_str("Executed SADD instruction"),
            Effect::Ssub => String::from_str("Executed SSUB instruction"),
            Effect::Ld1 => String::from_str("Executed LD1 instruction"),
            Effect::St1 => String::from_str("Executed ST1 instruction"),
            Effect::Matmul => String::from_str("Executed MATMUL instruction"),
            Effect::Mmv => String::from_str("Executed MMV instruction"),
            Effect::Encrypt => String::from_str("Executed ENCRYPT instruction"),
            Effect::Decrypt => String::from_str("Executed DECRYPT instruction"),
            Effect::InitTrustzone => String::from_str("Initialized TrustZone in EL3"),
            Effect::SetupVirtualization => String::from_str("Set up virtualization in EL2"),
            Effect::InitKernel => String::from_str("Kernel initialized in EL1"),
            Effect::StartUserApps => String::from_str("User space applications started in EL0"),
        }
    }
}

/// A registry entry.
#[derive(Debug, PartialEq, Eq)]
pub struct Command {
    /// The exact, case-sensitive word that invokes the command.
    pub name: String,
    pub effect: Effect,
    /// The mode the session must be in for the command to run.
    pub required_mode: Mode,
}

/// The first entry of `cmds` named `name`.
pub open spec fn find(cmds: Seq<Command>, name: Seq<char>) -> Option<Command>
    decreases cmds.len(),
{
    if cmds.len() == 0 {
        None
    } else if cmds[0].name@ == name {
        Some(cmds[0])
    } else {
        find(cmds.drop_first(), name)
    }
}

/// Some entry of `cmds` carries the effect `e`.
pub open spec fn registers(cmds: Seq<Command>, e: Effect) -> bool {
    exists|i: int| 0 <= i < cmds.len() && #[trigger] cmds[i].effect == e
}

/// No two entries share a name.
pub open spec fn names_distinct(cmds: Seq<Command>) -> bool {
    forall|i: int, j: int| 0 <= i < j < cmds.len() ==> cmds[i].name@ != cmds[j].name@
}

/// Why a list of commands cannot form a registry.
#[derive(Debug, PartialEq, Eq)]
pub enum RegistryError {
    /// Two entries carry this name.
    DuplicateName(String),
}

/// The table of known commands, fixed once built.
pub struct Registry {
    commands: Vec<Command>,
}

impl View for Registry {
    type V = Seq<Command>;

    closed spec fn view(&self) -> Seq<Command> {
        self.commands@
    }
}

/// An entry with the given parts.
fn command(name: &str, effect: Effect, required_mode: Mode) -> (r: Command)
    ensures
        r.name@ == name@,
        r.effect == effect,
        r.required_mode == required_mode,
{
    Command { name: String::from_str(name), effect, required_mode }
}

impl Registry {
    /// Builds a registry from `commands`, refusing a list in which two entries
    /// share a name.
    pub fn from_commands(commands: Vec<Command>) -> (r: Result<Registry, RegistryError>)
        ensures
            match r {
                Ok(reg) => names_distinct(commands@) && reg@ == commands@,
                Err(RegistryError::DuplicateName(n)) => !names_distinct(commands@) && exists|
                    i: int,
                    j: int,
                | 0 <= i < j < commands@.len() && commands@[i].name@ == n@ && commands@[j].name@
                    == n@,
            },
    {
        let n = commands.len();
        let mut j: usize = 0;
        while j < n
            invariant
                n == commands@.len(),
                j <= n,
                forall|a: int, b: int| 0 <= a < b < j ==> commands@[a].name@ != commands@[b].name@,
            decreases n - j,
        {
            let mut i: usize = 0;
            while i < j
                invariant
                    n == commands@.len(),
                    i <= j < n,
                    forall|a: int| 0 <= a < i ==> commands@[a].name@ != commands@[j as int].name@,
                decreases j - i,
            {
                if commands[i].name == commands[j].name {
                    return Err(RegistryError::DuplicateName(commands[j].name.clone()));
                }
                i = i + 1;
            }
            j = j + 1;
        }
        Ok(Registry { commands })
    }

    /// The registry of this simulator: the ordinary instructions, which need
    /// `NonSecure`, and the secure and system commands, which need `Secure`.
    pub fn standard() -> (r: Registry)
        ensures
            r@.len() == 31,
            names_distinct(r@),
            forall|i: int|
                0 <= i < r@.len() ==> #[trigger] r@[i].name@ == name_of(r@[i].effect)
                    && r@[i].required_mode == mode_of(r@[i].effect),
            forall|e: Effect| #[trigger] registers(r@, e),
    {
        let mut commands: Vec<Command> = Vec::new();
        commands.push(command("ADD", Effect::Add, Mode::NonSecure));
        commands.push(command("SUB", Effect::Sub, Mode::NonSecure));
        commands.push(command("AND", Effect::And, Mode::NonSecure));
        commands.push(command("ORR", Effect::Orr, Mode::NonSecure));
        commands.push(command("EOR", Effect::Eor, Mode::NonSecure));
        commands.push(command("B", Effect::B, Mode::NonSecure));
        commands.push(command("BL", Effect::Bl, Mode::NonSecure));
        commands.push(command("CMP", Effect::Cmp, Mode::NonSecure));
        commands.push(command("CMN", Effect::Cmn, Mode::NonSecure));
        commands.push(command("MOV", Effect::Mov, Mode::NonSecure));
        commands.push(command("MVN", Effect::Mvn, Mode::NonSecure));
        commands.push(command("LDR", Effect::Ldr, Mode::NonSecure));
        commands.push(command("STR", Effect::Str, Mode::NonSecure));
        commands.push(command("VADD", Effect::Vadd, Mode::NonSecure));
        commands.push(command("VSUB", Effect::Vsub, Mode::NonSecure));
        commands.push(command("FADD", Effect::Fadd, Mode::NonSecure));
        commands.push(command("FSUB", Effect::Fsub, Mode::NonSecure));
        commands.push(command("FMUL", Effect::Fmul, Mode::NonSecure));
        commands.push(command("VMOV", Effect::Vmov, Mode::NonSecure));
        commands.push(command("SADD", Effect::Sadd, Mode::NonSecure));
        commands.push(command("SSUB", Effect::Ssub, Mode::NonSecure));
        commands.push(command("LD1", Effect::Ld1, Mode::NonSecure));
        commands.push(command("ST1", Effect::St1, Mode::NonSecure));
        commands.push(command("MATMUL", Effect::Matmul, Mode::NonSecure));
        commands.push(command("MMV", Effect::Mmv, Mode::NonSecure));
        commands.push(command("encrypt", Effect::Encrypt, Mode::Secure));
        commands.push(command("decrypt", Effect::Decrypt, Mode::Secure));
        commands.push(command("init_trustzone", Effect::InitTrustzone, Mode::Secure));
        commands.push(command("setup_virtualization", Effect::SetupVirtualization, Mode::Secure));
        commands.push(command("init_kernel", Effect::InitKernel, Mode::Secure));
        commands.push(command("start_user_apps", Effect::StartUserApps, Mode::Secure));
        let r = Registry { commands };
        assert forall|i: int, j: int| 0 <= i < j < r@.len() implies r@[i].name@ != r@[j].name@ by {
            reveal_strlit("ADD");
            reveal_strlit("SUB");
            reveal_strlit("AND");
            reveal_strlit("ORR");
            reveal_strlit("EOR");
            reveal_strlit("B");
            reveal_strlit("BL");
            reveal_strlit("CMP");
            reveal_strlit("CMN");
            reveal_strlit("MOV");
            reveal_strlit("MVN");
            reveal_strlit("LDR");
            reveal_strlit("STR");
            reveal_strlit("VADD");
            reveal_strlit("VSUB");
            reveal_strlit("FADD");
            reveal_strlit("FSUB");
            reveal_strlit("FMUL");
            reveal_strlit("VMOV");
            reveal_strlit("SADD");
            reveal_strlit("SSUB");
            reveal_strlit("LD1");
            reveal_strlit("ST1");
            reveal_strlit("MATMUL");
            reveal_strlit("MMV");
            reveal_strlit("encrypt");
            reveal_strlit("decrypt");
            reveal_strlit("init_trustzone");
            reveal_strlit("setup_virtualization");
            reveal_strlit("init_kernel");
            reveal_strlit("start_user_apps");
            if r@[i].name@ == r@[j].name@ {
                assert(r@[i].name@.len() == r@[j].name@.len());
                assert(r@[i].name@[0] == r@[j].name@[0]);
                assert(r@[i].name@[1] == r@[j].name@[1]);
                assert(r@[i].name@[2] == r@[j].name@[2]);
            }
        }
        assert forall|e: Effect| #[trigger] registers(r@, e) by {
            match e {
                Effect::Add => assert(r@[0].effect == e),
                Effect::Sub => assert(r@[1].effect == e),
                Effect::And => assert(r@[2].effect == e),
                Effect::Orr => assert(r@[3].effect == e),
                Effect::Eor => assert(r@[4].effect == e),
                Effect::B => assert(r@[5].effect == e),
                Effect::Bl => assert(r@[6].effect == e),
                Effect::Cmp => assert(r@[7].effect == e),
                Effect::Cmn => assert(r@[8].effect == e),
                Effect::Mov => assert(r@[9].effect == e),
                Effect::Mvn => assert(r@[10].effect == e),
                Effect::Ldr => assert(r@[11].effect == e),
                Effect::Str => assert(r@[12].effect == e),
                Effect::Vadd => assert(r@[13].effect == e),
                Effect::Vsub => assert(r@[14].effect == e),
                Effect::Fadd => assert(r@[15].effect == e),
                Effect::Fsub => assert(r@[16].effect == e),
                Effect::Fmul => assert(r@[17].effect == e),
                Effect::Vmov => assert(r@[18].effect == e),
                Effect::Sadd => assert(r@[19].effect == e),
                Effect::Ssub => assert(r@[20].effect == e),
                Effect::Ld1 => assert(r@[21].effect == e),
                Effect::St1 => assert(r@[22].effect == e),
                Effect::Matmul => assert(r@[23].effect == e),
                Effect::Mmv => assert(r@[24].effect == e),
                Effect::Encrypt => assert(r@[25].effect == e),
                Effect::Decrypt => assert(r@[26].effect == e),
                Effect::InitTrustzone => assert(r@[27].effect == e),
                Effect::SetupVirtualization => assert(r@[28].effect == e),
                Effect::InitKernel => assert(r@[29].effect == e),
                Effect::StartUserApps => assert(r@[30].effect == e),
            }
        }
        r
    }

    /// The entry named `name`, if any.
    pub fn lookup(&self, name: &str) -> (r: Option<&Command>)
        ensures
            match find(self@, name@) {
                None => r is None,
                Some(c) => r matches Some(d) && *d == c,
            },
    {
        let key = String::from_str(name);
        match self.position(&key) {
            None => None,
            Some(i) => Some(&self.commands[i]),
        }
    }

    /// The index of the first entry named `name`.
    pub(crate) fn position(&self, name: &String) -> (r: Option<usize>)
        ensures
            match find(self@, name@) {
                None => r is None,
                Some(c) => r matches Some(i) && i < self@.len() && self@[i as int] == c,
            },
    {
        let n = self.commands.len();
        let mut i: usize = 0;
        assert(self@.subrange(0, n as int) =~= self@);
        while i < n
            invariant
                n == self@.len(),
                i <= n,
                find(self@, name@) == find(self@.subrange(i as int, n as int), name@),
            decreases n - i,
        {
            assert(self@.subrange(i as int, n as int).drop_first() =~= self@.subrange(
                i as int + 1,
                n as int,
            ));
            if self.commands[i].name == *name {
                return Some(i);
            }
            i = i + 1;
        }
        assert(self@.subrange(n as int, n as int).len() == 0);
        None
    }

    /// The names of all entries, in registry order.
    pub fn names(&self) -> (r: Vec<String>)
        ensures
            r@.len() == self@.len(),
            forall|i: int| 0 <= i < r@.len() ==> #[trigger] r@[i]@ == self@[i].name@,
    {
        let mut r: Vec<String> = Vec::new();
        let n = self.commands.len();
        let mut i: usize = 0;
        while i < n
            invariant
                n == self@.len(),
                i <= n,
                r@.len() == i,
                forall|k: int| 0 <= k < i ==> #[trigger] r@[k]@ == self@[k].name@,
            decreases n - i,
        {
            r.push(self.commands[i].name.clone());
            i = i + 1;
        }
        r
    }
}

/// The name under which an effect is registered in the standard registry.
pub open spec fn name_of(e: Effect) -> Seq<char> {
    match e {
        Effect::Add => "ADD"@,
        Effect::Sub => "SUB"@,
        Effect::And => "AND"@,
        Effect::Orr => "ORR"@,
        Effect::Eor => "EOR"@,
        Effect::B => "B"@,
        Effect::Bl => "BL"@,
        Effect::Cmp => "CMP"@,
        Effect::Cmn => "CMN"@,
        Effect::Mov => "MOV"@,
        Effect::Mvn => "MVN"@,
        Effect::Ldr => "LDR"@,
        Effect::Str => "STR"@,
        Effect::Vadd => "VADD"@,
        Effect::Vsub => "VSUB"@,
        Effect::Fadd => "FADD"@,
        Effect::Fsub => "FSUB"@,
        Effect::Fmul => "FMUL"@,
        Effect::Vmov => "VMOV"@,
        Effect::Sadd => "SADD"@,
        Effect::Ssub => "SSUB"@,
        Effect::Ld1 => "LD1"@,
        Effect::St1 => "ST1"@,
        Effect::Matmul => "MATMUL"@,
        Effect::Mmv => "MMV"@,
        Effect::Encrypt => "encrypt"@,
        Effect::Decrypt => "decrypt"@,
        Effect::InitTrustzone => "init_trustzone"@,
        Effect::SetupVirtualization => "setup_virtualization"@,
        Effect::InitKernel => "init_kernel"@,
        Effect::StartUserApps => "start_user_apps"@,
    }
}

/// The mode an effect's command needs in the standard registry.
pub open spec fn mode_of(e: Effect) -> Mode {
    match e {
        Effect::Add => Mode::NonSecure,
        Effect::Sub => Mode::NonSecure,
        Effect::And => Mode::NonSecure,
        Effect::Orr => Mode::NonSecure,
        Effect::Eor => Mode::NonSecure,
        Effect::B => Mode::NonSecure,
        Effect::Bl => Mode::NonSecure,
        Effect::Cmp => Mode::NonSecure,
        Effect::Cmn => Mode::NonSecure,
        Effect::Mov => Mode::NonSecure,
        Effect::Mvn => Mode::NonSecure,
        Effect::Ldr => Mode::NonSecure,
        Effect::Str => Mode::NonSecure,
        Effect::Vadd => Mode::NonSecure,
        Effect::Vsub => Mode::NonSecure,
        Effect::Fadd => Mode::NonSecure,
        Effect::Fsub => Mode::NonSecure,
        Effect::Fmul => Mode::NonSecure,
        Effect::Vmov => Mode::NonSecure,
        Effect::Sadd => Mode::NonSecure,
        Effect::Ssub => Mode::NonSecure,
        Effect::Ld1 => Mode::NonSecure,
        Effect::St1 => Mode::NonSecure,
        Effect::Matmul => Mode::NonSecure,
        Effect::Mmv => Mode::NonSecure,
        Effect::Encrypt => Mode::Secure,
        Effect::Decrypt => Mode::Secure,
        Effect::InitTrustzone => Mode::Secure,
        Effect::SetupVirtualization => Mode::Secure,
        Effect::InitKernel => Mode::Secure,
        Effect::StartUserApps => Mode::Secure,
    }
}

} // verus!
