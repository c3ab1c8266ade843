//! The runner's lifecycle: Uninitialized, Initializing, Running, Ending,
//! Terminated. The runner decides what happens in each phase and in which
//! order; the caller performs each step against the script environment and
//! reports back whether the script raised its stop flag.
//!
//! Modules are numbered by construction order: command modules first, then
//! polling modules.

use vstd::prelude::*;

verus! {

/// One module of the session.
#[derive(Clone, Copy, Debug, PartialEq, Eq, Structural)]
pub enum ModuleRef {
    /// A module with a command entry point.
    Command(usize),
    /// A module that is only updated.
    Polling(usize),
}

#[derive(Clone, Copy, Debug, PartialEq, Eq, Structural)]
pub enum Phase {
    Uninitialized,
    Initializing,
    Running,
    Ending,
    Terminated,
}

/// One thing the caller must do.
#[derive(Clone, Copy, Debug, PartialEq, Eq, Structural)]
pub enum Step {
    /// Call the module's `init`.
    Init(ModuleRef),
    /// Bind command module `i`'s entry point into the script environment.
    Bind(usize),
    /// Run command module `i`'s post-init script fragment, if it has one.
    PostInit(usize),
    /// Run the user's program once.
    RunProgram,
    /// Call the module's `update` with the elapsed time.
    Update(ModuleRef),
    /// Call the module's `end`.
    End(ModuleRef),
}

/// Every module, in construction order.
pub open spec fn construction_order(commands: nat, polling: nat) -> Seq<ModuleRef> {
    Seq::new(commands, |i: int| ModuleRef::Command(i as usize)) + Seq::new(
        polling,
        |i: int| ModuleRef::Polling(i as usize),
    )
}

/// Initialising the first `n` command modules: each is set up, bound, then
/// given its post-init fragment.
pub open spec fn command_setup(n: nat) -> Seq<Step>
    decreases n,
{
    if n == 0 {
        Seq::empty()
    } else {
        let i = (n - 1) as usize;
        command_setup((n - 1) as nat) + seq![Step::Init(ModuleRef::Command(i)), Step::Bind(i), Step::PostInit(i)]
    }
}

/// Everything done before the loop: polling modules are set up, then each
/// command module, then the user's program runs once.
pub open spec fn init_plan(commands: nat, polling: nat) -> Seq<Step> {
    Seq::new(polling, |i: int| polling_step(false, i)) + command_setup(commands)
        + seq![Step::RunProgram]
}

/// One iteration of the loop: command modules are updated, their entry points
/// bound afresh, then polling modules (which fire callbacks) are updated. The
/// stop flag is checked after that.
pub open spec fn iteration_plan(commands: nat, polling: nat) -> Seq<Step> {
    Seq::new(commands, |i: int| Step::Update(ModuleRef::Command(i as usize))) + Seq::new(
        commands,
        |i: int| Step::Bind(i as usize),
    ) + Seq::new(polling, |i: int| polling_step(true, i))
}

/// Tearing down: `end` once on every module, in construction order.
pub open spec fn end_plan(commands: nat, polling: nat) -> Seq<Step> {
    construction_order(commands, polling).map_values(|m: ModuleRef| Step::End(m))
}

/// The session's lifecycle.
pub struct Runner {
    commands: usize,
    polling: usize,
    phase: Phase,
}

/// The step for polling module `i`: its update, or else its init.
pub open spec fn polling_step(update: bool, i: int) -> Step {
    if update {
        Step::Update(ModuleRef::Polling(i as usize))
    } else {
        Step::Init(ModuleRef::Polling(i as usize))
    }
}

fn push_each_polling(steps: &mut Vec<Step>, polling: usize, update: bool)
    ensures
        final(steps)@ == old(steps)@ + Seq::new(polling as nat, |i: int| polling_step(update, i)),
{
    let ghost start = steps@;
    let mut i: usize = 0;
    assert(start =~= start + Seq::new(0, |k: int| polling_step(update, k)));
    while i < polling
        invariant
            i <= polling,
            steps@ == start + Seq::new(i as nat, |k: int| polling_step(update, k)),
        decreases polling - i,
    {
        let s = if update {
            Step::Update(ModuleRef::Polling(i))
        } else {
            Step::Init(ModuleRef::Polling(i))
        };
        steps.push(s);
        assert(steps@ =~= start + Seq::new((i + 1) as nat, |k: int| polling_step(update, k)));
        i = i + 1;
    }
}

impl Runner {
    pub closed spec fn command_count(&self) -> nat {
        self.commands as nat
    }

    pub closed spec fn polling_count(&self) -> nat {
        self.polling as nat
    }

    pub closed spec fn phase_of(&self) -> Phase {
        self.phase
    }

    /// A session over `commands` command modules and `polling` polling modules.
    pub fn new(commands: usize, polling: usize) -> (r: Runner)
        ensures
            r.command_count() == commands,
            r.polling_count() == polling,
            r.phase_of() == Phase::Uninitialized,
    {
        Runner { commands, polling, phase: Phase::Uninitialized }
    }

    pub fn phase(&self) -> (r: Phase)
        ensures
            r == self.phase_of(),
    {
        self.phase
    }

    /// Begins initialisation and returns what it consists of.
    pub fn start(&mut self) -> (r: Vec<Step>)
        requires
            old(self).phase_of() == Phase::Uninitialized,
        ensures
            final(self).phase_of() == Phase::Initializing,
            final(self).command_count() == old(self).command_count(),
            final(self).polling_count() == old(self).polling_count(),
            r@ == init_plan(old(self).command_count(), old(self).polling_count()),
    {
        self.phase = Phase::Initializing;
        let mut steps: Vec<Step> = Vec::new();
        push_each_polling(&mut steps, self.polling, false);
        let ghost head = steps@;
        let mut i: usize = 0;
        assert(head =~= head + command_setup(0));
        while i < self.commands
            invariant
                i <= self.commands,
                steps@ == head + command_setup(i as nat),
            decreases self.commands - i,
        {
            steps.push(Step::Init(ModuleRef::Command(i)));
            steps.push(Step::Bind(i));
            steps.push(Step::PostInit(i));
            assert(command_setup((i + 1) as nat) == command_setup(i as nat) + seq![
                Step::Init(ModuleRef::Command(i)),
                Step::Bind(i),
                Step::PostInit(i),
            ]);
            assert(steps@ =~= head + command_setup((i + 1) as nat));
            i = i + 1;
        }
        steps.push(Step::RunProgram);
        assert(steps@ =~= init_plan(self.commands as nat, self.polling as nat));
        steps
    }

    /// Initialisation is over: the loop starts.
    pub fn started(&mut self)
        requires
            old(self).phase_of() == Phase::Initializing,
        ensures
            final(self).phase_of() == Phase::Running,
            final(self).command_count() == old(self).command_count(),
            final(self).polling_count() == old(self).polling_count(),
    {
        self.phase = Phase::Running;
    }

    /// What one iteration of the loop consists of.
    pub fn iteration(&self) -> (r: Vec<Step>)
        requires
            self.phase_of() == Phase::Running,
        ensures
            r@ == iteration_plan(self.command_count(), self.polling_count()),
    {
        let mut steps: Vec<Step> = Vec::new();
        let mut i: usize = 0;
        while i < self.commands
            invariant
                i <= self.commands,
                steps@ == Seq::new(i as nat, |k: int| Step::Update(ModuleRef::Command(k as usize))),
            decreases self.commands - i,
        {
            steps.push(Step::Update(ModuleRef::Command(i)));
            assert(steps@ =~= Seq::new((i + 1) as nat, |k: int| Step::Update(ModuleRef::Command(k as usize))));
            i = i + 1;
        }
        let ghost head = steps@;
        let mut j: usize = 0;
        while j < self.commands
            invariant
                j <= self.commands,
                steps@ == head + Seq::new(j as nat, |k: int| Step::Bind(k as usize)),
            decreases self.commands - j,
        {
            steps.push(Step::Bind(j));
            assert(steps@ =~= head + Seq::new((j + 1) as nat, |k: int| Step::Bind(k as usize)));
            j = j + 1;
        }
        push_each_polling(&mut steps, self.polling, true);
        steps
    }

    /// The stop flag as read after an iteration. Raised, the session moves to
    /// Ending and the teardown is returned; otherwise it keeps running and
    /// there is nothing to do but pause before the next iteration.
    pub fn checked(&mut self, stop: bool) -> (r: Vec<Step>)
        requires
            old(self).phase_of() == Phase::Running,
        ensures
            final(self).phase_of() == (if stop { Phase::Ending } else { Phase::Running }),
            final(self).command_count() == old(self).command_count(),
            final(self).polling_count() == old(self).polling_count(),
            r@ == (if stop {
                end_plan(old(self).command_count(), old(self).polling_count())
            } else {
                Seq::<Step>::empty()
            }),
    {
        let mut steps: Vec<Step> = Vec::new();
        if !stop {
            assert(steps@ =~= Seq::<Step>::empty());
            return steps;
        }
        self.phase = Phase::Ending;
        let ghost order = construction_order(self.commands as nat, self.polling as nat);
        let mut i: usize = 0;
        while i < self.commands
            invariant
                i <= self.commands,
                steps@ == Seq::new(i as nat, |k: int| Step::End(ModuleRef::Command(k as usize))),
            decreases self.commands - i,
        {
            steps.push(Step::End(ModuleRef::Command(i)));
            assert(steps@ =~= Seq::new((i + 1) as nat, |k: int| Step::End(ModuleRef::Command(k as usize))));
            i = i + 1;
        }
        let ghost head = steps@;
        let mut j: usize = 0;
        while j < self.polling
            invariant
                j <= self.polling,
                steps@ == head + Seq::new(j as nat, |k: int| Step::End(ModuleRef::Polling(k as usize))),
            decreases self.polling - j,
        {
            steps.push(Step::End(ModuleRef::Polling(j)));
            assert(steps@ =~= head + Seq::new((j + 1) as nat, |k: int| Step::End(ModuleRef::Polling(k as usize))));
            j = j + 1;
        }
        assert(steps@ =~= end_plan(self.commands as nat, self.polling as nat));
        steps
    }

    /// Teardown is over.
    pub fn ended(&mut self)
        requires
            old(self).phase_of() == Phase::Ending,
        ensures
            final(self).phase_of() == Phase::Terminated,
    {
        self.phase = Phase::Terminated;
    }
}

/// A stop flag raised during the first iteration ends the session there: the
/// runner leaves Running after that one check, and its teardown calls `end`
/// on every module exactly once, in construction order.
pub proof fn law_stop_ends_every_module_once(commands: nat, polling: nat, stop_seen: bool)
    requires
        stop_seen,
        commands <= usize::MAX,
        polling <= usize::MAX,
    ensures
        (if stop_seen { Phase::Ending } else { Phase::Running }) != Phase::Running,
        end_plan(commands, polling).len() == commands + polling,
        forall|k: int|
            0 <= k < commands + polling ==> #[trigger] end_plan(commands, polling)[k] == Step::End(
                construction_order(commands, polling)[k],
            ),
        end_plan(commands, polling).no_duplicates(),
        forall|m: ModuleRef|
            construction_order(commands, polling).contains(m) ==> end_plan(commands, polling).contains(
                Step::End(m),
            ),
{
    let order = construction_order(commands, polling);
    let plan = end_plan(commands, polling);
    assert forall|a: int, b: int| 0 <= a < plan.len() && 0 <= b < plan.len() && a != b implies plan[a]
        != plan[b] by {
        assert(plan[a] == Step::End(order[a]));
        assert(plan[b] == Step::End(order[b]));
        if a < commands && b < commands {
            assert(order[a] == ModuleRef::Command(a as usize));
            assert(order[b] == ModuleRef::Command(b as usize));
        } else if a >= commands && b >= commands {
            assert(order[a] == ModuleRef::Polling((a - commands) as usize));
            assert(order[b] == ModuleRef::Polling((b - commands) as usize));
        } else if a < commands {
            assert(order[a] is Command);
            assert(order[b] is Polling);
        } else {
            assert(order[a] is Polling);
            assert(order[b] is Command);
        }
    }
    assert forall|m: ModuleRef| order.contains(m) implies plan.contains(Step::End(m)) by {
        let k = choose|k: int| 0 <= k < order.len() && order[k] == m;
        assert(plan[k] == Step::End(m));
    }
}

} // verus!
