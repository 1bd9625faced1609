//! The single global hotkey that toggles the overlay. The platform calls are
//! made by the program around this library: it carries out the commands that
//! `rebind_commands` lists, and reports how the registration went.
use vstd::prelude::*;

verus! {

/// Why a hotkey could not be bound.
#[derive(Clone, Copy, Debug, PartialEq, Eq, Structural)]
pub enum BindError {
    /// The platform could not read the binding.
    InvalidSyntax,
    /// Another process holds the binding.
    AlreadyBound,
}

/// What the platform said of a registration.
#[derive(Clone, Copy, Debug, PartialEq, Eq, Structural)]
pub enum RegistrationOutcome {
    Registered,
    InvalidSyntax,
    AlreadyBound,
}

/// A call to make at the platform.
#[derive(Debug, Clone, PartialEq, Eq)]
pub enum HotkeyCommand {
    /// Drop every binding that this process holds.
    UnregisterAll,
    /// Register the binding.
    Register(String),
}

/// A `HotkeyCommand` with its binding as plain text.
pub enum HotkeyCommandModel {
    UnregisterAll,
    Register(Seq<char>),
}

impl View for HotkeyCommand {
    type V = HotkeyCommandModel;

    open spec fn view(&self) -> HotkeyCommandModel {
        match self {
            HotkeyCommand::UnregisterAll => HotkeyCommandModel::UnregisterAll,
            HotkeyCommand::Register(binding) => HotkeyCommandModel::Register(binding@),
        }
    }
}

/// The models of a sequence of commands.
pub open spec fn command_models(commands: Seq<HotkeyCommand>) -> Seq<HotkeyCommandModel> {
    Seq::new(commands.len(), |i: int| commands[i]@)
}

/// The commands of one rebinding: drop what is bound, then register.
pub open spec fn rebind_plan(binding: Seq<char>) -> Seq<HotkeyCommandModel> {
    seq![HotkeyCommandModel::UnregisterAll, HotkeyCommandModel::Register(binding)]
}

/// The bindings that the platform holds for this process once it has carried
/// out a command without failure.
pub open spec fn after_command(held: Seq<Seq<char>>, command: HotkeyCommandModel) -> Seq<
    Seq<char>,
> {
    match command {
        HotkeyCommandModel::UnregisterAll => Seq::empty(),
        HotkeyCommandModel::Register(binding) => held.push(binding),
    }
}

/// The bindings that the platform holds once it has carried out the commands
/// in their order, each without failure.
pub open spec fn after_commands(held: Seq<Seq<char>>, commands: Seq<HotkeyCommandModel>) -> Seq<
    Seq<char>,
>
    decreases commands.len(),
{
    if commands.len() == 0 {
        held
    } else {
        after_command(after_commands(held, commands.drop_last()), commands.last())
    }
}

/// The binding that is active after a rebinding with the given outcome.
pub open spec fn binding_after(binding: Seq<char>, outcome: RegistrationOutcome) -> Option<
    Seq<char>,
> {
    match outcome {
        RegistrationOutcome::Registered => Some(binding),
        _ => None,
    }
}

/// What a rebinding with the given outcome returns.
pub open spec fn rebind_result(outcome: RegistrationOutcome) -> Result<(), BindError> {
    match outcome {
        RegistrationOutcome::Registered => Ok(()),
        RegistrationOutcome::InvalidSyntax => Err(BindError::InvalidSyntax),
        RegistrationOutcome::AlreadyBound => Err(BindError::AlreadyBound),
    }
}

/// Keeps track of the one hotkey that is bound.
#[derive(Debug, Clone, PartialEq, Eq)]
pub struct HotkeyManager {
    active: Option<String>,
}

impl HotkeyManager {
    /// The binding that is active, as plain text.
    pub closed spec fn binding(&self) -> Option<Seq<char>> {
        match self.active {
            Some(s) => Some(s@),
            None => None,
        }
    }

    /// The bindings that are active, as a sequence: it has one element or
    /// none.
    pub open spec fn bindings(&self) -> Seq<Seq<char>> {
        match self.binding() {
            Some(s) => seq![s],
            None => Seq::empty(),
        }
    }

    /// A manager with nothing bound.
    pub fn new() -> (r: Self)
        ensures
            r.binding() is None,
    {
        HotkeyManager { active: None }
    }

    /// The binding that is active.
    pub fn active_binding(&self) -> (r: Option<&String>)
        ensures
            match r {
                Some(s) => self.binding() == Some(s@),
                None => self.binding() is None,
            },
    {
        match &self.active {
            Some(s) => Some(s),
            None => None,
        }
    }

    /// The platform calls of a rebinding, in the order in which they are to be
    /// made: what is bound is dropped first, whatever it is, so that the new
    /// binding never stands beside an old one.
    pub fn rebind_commands(&self, new_binding: &str) -> (r: Vec<HotkeyCommand>)
        ensures
            command_models(r@) == rebind_plan(new_binding@),
    {
        let mut commands: Vec<HotkeyCommand> = Vec::new();
        commands.push(HotkeyCommand::UnregisterAll);
        commands.push(HotkeyCommand::Register(new_binding.to_string()));
        assert(command_models(commands@) =~= rebind_plan(new_binding@));
        commands
    }

    /// Records how the rebinding to `new_binding` went. A binding that the
    /// platform registered is the active one from now on. After a failure
    /// nothing is bound, since the old binding was dropped before the attempt,
    /// and the failure is handed on as it is.
    pub fn rebind(&mut self, new_binding: &str, outcome: RegistrationOutcome) -> (r: Result<
        (),
        BindError,
    >)
        ensures
            r == rebind_result(outcome),
            final(self).binding() == binding_after(new_binding@, outcome),
    {
        match outcome {
            RegistrationOutcome::Registered => {
                self.active = Some(new_binding.to_string());
                Ok(())
            },
            RegistrationOutcome::InvalidSyntax => {
                self.active = None;
                Err(BindError::InvalidSyntax)
            },
            RegistrationOutcome::AlreadyBound => {
                self.active = None;
                Err(BindError::AlreadyBound)
            },
        }
    }
}

/// One rebinding that the platform accepts leaves it with exactly the new
/// binding, whatever it held before.
pub proof fn lemma_rebind_leaves_one(held: Seq<Seq<char>>, binding: Seq<char>)
    ensures
        after_commands(held, rebind_plan(binding)) == seq![binding],
{
    let plan = rebind_plan(binding);
    assert(plan.drop_last() =~= seq![HotkeyCommandModel::UnregisterAll]);
    assert(plan.drop_last().drop_last() =~= Seq::<HotkeyCommandModel>::empty());
    reveal_with_fuel(after_commands, 3);
    assert(after_commands(held, plan) =~= seq![binding]);
}

/// Rebinding twice to the same accepted string leaves exactly one binding at
/// the platform, and the manager's record agrees with it: the second call
/// changes nothing.
pub proof fn lemma_rebind_twice(held: Seq<Seq<char>>, binding: Seq<char>)
    ensures
        after_commands(after_commands(held, rebind_plan(binding)), rebind_plan(binding))
            == seq![binding],
        after_commands(after_commands(held, rebind_plan(binding)), rebind_plan(binding))
            == after_commands(held, rebind_plan(binding)),
        after_commands(held, rebind_plan(binding)).len() == 1,
        binding_after(binding, RegistrationOutcome::Registered) == Some(binding),
        rebind_result(RegistrationOutcome::Registered) is Ok,
{
    lemma_rebind_leaves_one(held, binding);
    lemma_rebind_leaves_one(after_commands(held, rebind_plan(binding)), binding);
}

} // verus!
