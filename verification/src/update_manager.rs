//! The scheduling core: task lifecycle values, the task capability trait,
//! and the update manager that owns the ordered task list and drives ticks.
pub mod channel;
pub mod container;

use vstd::prelude::*;

verus! {

/// What one task reports back from a single `update` call.
pub enum TaskResult {
    /// System error: the entire program or task needs to go down.
    ErrFatal(&'static str),
    /// Logic error: just restart the task.
    ErrReload,
    /// Success: nothing of note to send.
    Okay,
    /// Request shutdown of the entire program.
    RequestShutdown,
}

/// A declarative startup need a task announces; forwarded for the task's own
/// later use, not consumed by the core.
pub enum TaskRequest {
    /// Link to the channel with this name.
    LinkChannel(&'static str),
}

/// Capability tags a task carries for its whole lifetime.
#[derive(PartialEq, Eq, Structural, Clone, Copy, Debug)]
pub enum TaskTag {
    /// Retain the task until the final teardown pass, so it outlives its
    /// siblings.
    DropLast,
}

/// What a successful `start` hands back: a display label, capability tags,
/// and startup requests.  Immutable after creation; replaced wholesale on
/// reload.
pub struct PostInit {
    pub name: &'static str,
    pub tags: &'static [TaskTag],
    pub requests: &'static [TaskRequest],
}

/// Reserved message kind for manager-to-task traffic.
pub enum ManagerMessage {
    TaskChannel(),
}

/// A lifecycle failure reported by a task's `start` or `end`, or by the
/// supervision around them.
#[derive(Debug)]
pub struct TaskError {
    pub reason: String,
}

impl TaskError {
    pub fn new(reason: String) -> (r: TaskError)
        ensures
            r.reason == reason,
    {
        TaskError { reason }
    }
}

/// The task capability interface: a polymorphic unit of work with a
/// start/update/end lifecycle, implemented outside the core and owned
/// exclusively by its container.
///
/// The core passes every implementation the one shared channel registry so
/// that it can rendezvous with peers by name; since implementations can only
/// act on the registry through its public operations, each of which keeps it
/// well-formed, every implementation leaves it well-formed.
pub trait Task<M> {
    /// Called once at registration and once per reload; announces the label,
    /// capability tags and startup requests of the fresh task state.  Must be
    /// idempotent with respect to resource acquisition.
    fn start(&mut self, registry: &mut channel::ChannelRegistry<M>) -> (r: Result<
        PostInit,
        TaskError,
    >)
        requires
            old(registry).wf(),
        ensures
            final(registry).wf(),
    ;

    /// Called once per scheduler tick while the container holds exclusive
    /// access; must not block indefinitely.
    fn update(&mut self, registry: &mut channel::ChannelRegistry<M>) -> (r: TaskResult)
        requires
            old(registry).wf(),
        ensures
            final(registry).wf(),
    ;

    /// Releases all resources; must be safe to call multiple times.
    fn end(&mut self) -> (r: Result<(), TaskError>);
}

/// What one tick reports back: keep ticking, or bring the program down.
#[derive(Clone, Copy, PartialEq, Eq, Structural, Debug)]
pub enum UpdateReturn {
    Continue,
    Shutdown,
}

/// What the manager does with one task's result before moving on.
#[derive(Clone, Copy, PartialEq, Eq, Structural, Debug)]
pub enum TickAction {
    /// Move on to the next container in this tick.
    Proceed,
    /// Reload the task in place, then move on (or halt if the reload fails).
    Reload,
    /// Stop this tick at once and report a shutdown.
    Halt,
}

/// How a task's result is interpreted, given the permission its container
/// was registered with:
/// - success is a no-op;
/// - a fatal error is reported and the tick continues to the next task;
/// - a logic error asks for an in-place reload;
/// - a shutdown request halts the tick only when it comes from a `Root`
///   container, and is absorbed without effect from any other.
pub open spec fn spec_interpret(
    result: TaskResult,
    permission: container::TaskPermission,
) -> TickAction {
    match result {
        TaskResult::Okay => TickAction::Proceed,
        TaskResult::ErrFatal(_) => TickAction::Proceed,
        TaskResult::ErrReload => TickAction::Reload,
        TaskResult::RequestShutdown => if permission is Root {
            TickAction::Halt
        } else {
            TickAction::Proceed
        },
    }
}

/// The result-interpretation rule of the scheduler, as executable code.
pub fn interpret_result(result: &TaskResult, permission: &container::TaskPermission) -> (r:
    TickAction)
    ensures
        r == spec_interpret(*result, *permission),
{
    match result {
        TaskResult::Okay => TickAction::Proceed,
        TaskResult::ErrFatal(_) => TickAction::Proceed,
        TaskResult::ErrReload => TickAction::Reload,
        TaskResult::RequestShutdown => {
            if *permission == container::TaskPermission::Root {
                TickAction::Halt
            } else {
                TickAction::Proceed
            }
        },
    }
}

/// The record of one container's turn within a tick: the result its run
/// reported and, where that result asked for a reload, whether the reload
/// failed.  A tick leaves one record per container it ran, in schedule
/// order.
pub struct TickStep {
    pub result: TaskResult,
    pub reload_failed: bool,
}

/// Whether this step stops the tick: a halt decision, or a reload that
/// could not be carried out.
pub open spec fn step_halts(step: TickStep, permission: container::TaskPermission) -> bool {
    match spec_interpret(step.result, permission) {
        TickAction::Proceed => false,
        TickAction::Reload => step.reload_failed,
        TickAction::Halt => true,
    }
}

/// Whether this step leaves a diagnostic line: one per fatal or reload
/// event.
pub open spec fn step_logs(step: TickStep) -> bool {
    step.result is ErrFatal || step.result is ErrReload
}

/// How many diagnostic lines a tick with these steps leaves behind.
pub open spec fn logged_count(steps: Seq<TickStep>) -> nat
    decreases steps.len(),
{
    if steps.len() == 0 {
        0
    } else {
        logged_count(steps.drop_last()) + if step_logs(steps.last()) {
            1nat
        } else {
            0nat
        }
    }
}

/// What a tick does to the container in one slot, given the step recorded
/// for it: the permission never changes; outside a reload the container's
/// label, tags and lifecycle are untouched; a reload leaves it running
/// exactly when it succeeded and broken exactly when it failed.
pub open spec fn step_effect<M>(
    before: container::TaskContainer<M>,
    after: container::TaskContainer<M>,
    step: TickStep,
) -> bool {
    &&& after.permission() == before.permission()
    &&& match spec_interpret(step.result, before.permission()) {
        TickAction::Reload => {
            &&& (after.lifecycle() is Running <==> !step.reload_failed)
            &&& (after.lifecycle() is Broken <==> step.reload_failed)
        },
        _ => {
            &&& after.label() == before.label()
            &&& after.tag_seq() == before.tag_seq()
            &&& after.lifecycle() == before.lifecycle()
        },
    }
}

/// Owns the ordered task list and the one shared channel registry, and
/// drives one scheduling tick per invocation.
#[verifier::reject_recursive_types(M)]
pub struct UpdateManager<M> {
    tasks: Vec<container::TaskContainer<M>>,
    hardware_registry: channel::ChannelRegistry<M>,
    last_tick: Ghost<Seq<TickStep>>,
    diagnostics: Vec<String>,
}

impl<M> UpdateManager<M> {
    /// The ordered schedule: containers in registration order.
    pub closed spec fn schedule(self) -> Seq<container::TaskContainer<M>> {
        self.tasks@
    }

    /// The shared rendezvous registry the manager owns.
    pub closed spec fn registry(self) -> channel::ChannelRegistry<M> {
        self.hardware_registry
    }

    /// The step records of the most recent tick, one per container it ran,
    /// in schedule order.
    pub closed spec fn last_tick_steps(self) -> Seq<TickStep> {
        self.last_tick@
    }

    /// The diagnostic lines collected and not yet taken.
    pub closed spec fn diag_seq(self) -> Seq<String> {
        self.diagnostics@
    }

    /// Between ticks, the registry is consistent and every scheduled
    /// container stands in a stable lifecycle state: `Running`, or
    /// terminally `Broken` after a failed reload.  The transient `Stopping`
    /// and `Starting` states never outlive the reload call that passes
    /// through them.
    pub open spec fn wf(self) -> bool {
        &&& self.registry().wf()
        &&& forall|i: int|
            0 <= i < self.schedule().len() ==> {
                ||| (#[trigger] self.schedule()[i]).lifecycle() is Running
                ||| self.schedule()[i].lifecycle() is Broken
            }
    }

    /// A manager with no tasks and an empty registry.
    pub fn new() -> (r: Result<UpdateManager<M>, TaskError>)
        ensures
            r is Ok,
            r matches Ok(m) ==> {
                &&& m.wf()
                &&& m.schedule().len() == 0
                &&& m.diag_seq().len() == 0
                &&& m.registry().entries() =~= Map::<
                    Seq<char>,
                    channel::PendingChannel<M>,
                >::empty()
            },
    {
        Ok(
            UpdateManager {
                tasks: Vec::new(),
                hardware_registry: channel::ChannelRegistry::new(),
                last_tick: Ghost(Seq::empty()),
                diagnostics: Vec::new(),
            },
        )
    }

    /// Hands over the diagnostic lines collected so far — one per fatal or
    /// reload event a tick interpreted — and leaves the collection empty.
    pub fn take_diagnostics(&mut self) -> (r: Vec<String>)
        ensures
            r@ == old(self).diag_seq(),
            final(self).diag_seq().len() == 0,
            final(self).schedule() == old(self).schedule(),
            final(self).registry() == old(self).registry(),
    {
        let mut out: Vec<String> = Vec::new();
        core::mem::swap(&mut out, &mut self.diagnostics);
        out
    }

    /// How many containers are scheduled.
    pub fn task_count(&self) -> (r: usize)
        ensures
            r == self.schedule().len(),
    {
        self.tasks.len()
    }

    /// Registers a task: constructs a container (starting the task) and
    /// appends it to the schedule.  If the start fails, the error propagates
    /// and the schedule is left exactly as it was: the task is never
    /// scheduled.
    pub fn add_task(&mut self, task: Box<dyn Task<M>>, perms: container::TaskPermission) -> (r:
        Result<(), TaskError>)
        requires
            old(self).wf(),
        ensures
            final(self).wf(),
            r is Ok ==> {
                &&& final(self).schedule().len() == old(self).schedule().len() + 1
                &&& forall|i: int|
                    0 <= i < old(self).schedule().len()
                        ==> #[trigger] final(self).schedule()[i] == old(self).schedule()[i]
                &&& final(self).schedule().last().permission() == perms
                &&& final(self).schedule().last().lifecycle() is Running
            },
            r is Err ==> final(self).schedule() == old(self).schedule(),
    {
        match container::TaskContainer::new(task, perms, &mut self.hardware_registry) {
            Ok(new_container) => {
                self.tasks.push(new_container);
                Ok(())
            },
            Err(error) => Err(error),
        }
    }

    /// One scheduling tick: runs every container in registration order and
    /// interprets each result before moving to the next.  A fatal error is
    /// reported in the diagnostics and the tick continues; a reload request
    /// reloads the task in place, and a failed reload terminates the whole
    /// tick with `Shutdown`; a shutdown request from a `Root` container
    /// returns `Shutdown` at once, and no later container runs in this
    /// tick.  No container is ever added or removed by a tick, and no
    /// container's permission changes.
    ///
    /// The contract ties the return value to the recorded steps: the tick
    /// stops exactly at the first halting step (see [`step_halts`]), a
    /// continuing tick has run every container, each slot it ran shows the
    /// effect its step dictates (see [`step_effect`]), the containers past
    /// a stop are untouched entirely, and one diagnostic line is appended
    /// per fatal or reload event.
    pub fn update_tasks(&mut self) -> (r: UpdateReturn)
        requires
            old(self).wf(),
        ensures
            final(self).wf(),
            final(self).schedule().len() == old(self).schedule().len(),
            forall|i: int|
                0 <= i < old(self).schedule().len()
                    ==> (#[trigger] final(self).schedule()[i]).permission() == old(
                    self,
                ).schedule()[i].permission(),
            final(self).last_tick_steps().len() <= old(self).schedule().len(),
            // the tick stops exactly at a halting step
            forall|k: int|
                0 <= k < final(self).last_tick_steps().len()
                    ==> (step_halts(
                    #[trigger] final(self).last_tick_steps()[k],
                    old(self).schedule()[k].permission(),
                ) <==> (r is Shutdown && k == final(self).last_tick_steps().len() - 1)),
            r is Shutdown ==> final(self).last_tick_steps().len() > 0,
            r is Continue ==> final(self).last_tick_steps().len() == old(self).schedule().len(),
            old(self).schedule().len() == 0 ==> r is Continue,
            // a container that is not runnable reports a fatal error
            forall|k: int|
                0 <= k < final(self).last_tick_steps().len() && (#[trigger] old(
                    self,
                ).schedule()[k]).lifecycle() is Broken
                    ==> final(self).last_tick_steps()[k].result is ErrFatal,
            // each slot the tick ran shows the effect its step dictates
            forall|k: int|
                0 <= k < final(self).last_tick_steps().len()
                    ==> step_effect(
                    old(self).schedule()[k],
                    final(self).schedule()[k],
                    #[trigger] final(self).last_tick_steps()[k],
                ),
            // containers past the stopping point are untouched entirely
            forall|k: int|
                final(self).last_tick_steps().len() <= k < old(self).schedule().len()
                    ==> #[trigger] final(self).schedule()[k] == old(self).schedule()[k],
            // one diagnostic line per fatal or reload event, appended in order
            final(self).diag_seq().len() == old(self).diag_seq().len() + logged_count(
                final(self).last_tick_steps(),
            ),
            forall|k: int|
                0 <= k < old(self).diag_seq().len() ==> #[trigger] final(self).diag_seq()[k]
                    == old(self).diag_seq()[k],
    {
        let ghost s0 = self.tasks@;
        let ghost d0 = self.diagnostics@;
        let ghost mut steps: Seq<TickStep> = Seq::empty();
        let mut i: usize = 0;
        while i < self.tasks.len()
            invariant
                self.hardware_registry.wf(),
                s0 == old(self).tasks@,
                d0 == old(self).diagnostics@,
                i <= self.tasks@.len(),
                self.tasks@.len() == s0.len(),
                steps.len() == i,
                forall|j: int|
                    0 <= j < s0.len() ==> (#[trigger] self.tasks@[j]).permission()
                        == s0[j].permission(),
                forall|j: int| i <= j < s0.len() ==> #[trigger] self.tasks@[j] == s0[j],
                forall|k: int|
                    0 <= k < i ==> !step_halts(#[trigger] steps[k], s0[k].permission()),
                forall|k: int|
                    0 <= k < i && (#[trigger] s0[k]).lifecycle() is Broken ==> steps[k].result
                        is ErrFatal,
                forall|k: int|
                    0 <= k < i ==> step_effect(s0[k], self.tasks@[k], #[trigger] steps[k]),
                forall|j: int|
                    0 <= j < self.tasks@.len() ==> {
                        ||| (#[trigger] self.tasks@[j]).lifecycle() is Running
                        ||| self.tasks@[j].lifecycle() is Broken
                    },
                self.diagnostics@.len() == d0.len() + logged_count(steps),
                forall|k: int|
                    0 <= k < d0.len() ==> #[trigger] self.diagnostics@[k] == d0[k],
            decreases self.tasks@.len() - i,
        {
            let ghost s_before = self.tasks@;
            let mut current = self.tasks.remove(i);
            let task_result = current.run(&mut self.hardware_registry);
            let action = interpret_result(&task_result, current.get_permission());
            match action {
                TickAction::Proceed => {
                    if let TaskResult::ErrFatal(message) = &task_result {
                        let mut line = String::from_str("task ");
                        line.append(current.get_label());
                        line.append(" returned with fatal error: ");
                        line.append(message);
                        self.diagnostics.push(line);
                    }
                    proof {
                        let prev = steps;
                        steps = steps.push(TickStep { result: task_result, reload_failed: false });
                        assert(steps.drop_last() =~= prev);
                    }
                    self.tasks.insert(i, current);
                    proof {
                        assert(self.tasks@ =~= s_before.update(i as int, current));
                    }
                },
                TickAction::Reload => {
                    let mut line = String::from_str("task ");
                    line.append(current.get_label());
                    let reload_result = current.reload_task(&mut self.hardware_registry);
                    let reload_failed = reload_result.is_err();
                    match reload_result {
                        Ok(()) => line.append(" reloaded"),
                        Err(error) => {
                            line.append(" failed to reload: ");
                            line.append(error.reason.as_str());
                        },
                    }
                    self.diagnostics.push(line);
                    proof {
                        let prev = steps;
                        steps = steps.push(
                            TickStep { result: task_result, reload_failed: reload_failed },
                        );
                        assert(steps.drop_last() =~= prev);
                    }
                    self.tasks.insert(i, current);
                    proof {
                        assert(self.tasks@ =~= s_before.update(i as int, current));
                    }
                    if reload_failed {
                        // the restart itself failed: there is no sub-task
                        // supervision tree to retry into, so escalate to a
                        // manager-level shutdown
                        self.last_tick = Ghost(steps);
                        return UpdateReturn::Shutdown;
                    }
                },
                TickAction::Halt => {
                    proof {
                        let prev = steps;
                        steps = steps.push(TickStep { result: task_result, reload_failed: false });
                        assert(steps.drop_last() =~= prev);
                    }
                    self.tasks.insert(i, current);
                    proof {
                        assert(self.tasks@ =~= s_before.update(i as int, current));
                    }
                    self.last_tick = Ghost(steps);
                    return UpdateReturn::Shutdown;
                },
            }
            i = i + 1;
        }
        self.last_tick = Ghost(steps);
        UpdateReturn::Continue
    }

    /// The explicit teardown pass: containers without the deferred-release
    /// tag are released first, and the tagged ones only after them, so that
    /// a task marked `DropLast` outlives its siblings.
    pub fn teardown(&mut self)
        requires
            old(self).wf(),
        ensures
            final(self).wf(),
            final(self).schedule().len() == 0,
            final(self).registry() == old(self).registry(),
            final(self).diag_seq() == old(self).diag_seq(),
    {
        let mut retained: Vec<container::TaskContainer<M>> = Vec::new();
        // first pass: every container without the tag runs its task's `end`
        // and is released here
        while self.tasks.len() > 0
            invariant
                self.hardware_registry == old(self).hardware_registry,
                self.diagnostics == old(self).diagnostics,
            decreases self.tasks@.len(),
        {
            match self.tasks.pop() {
                Some(mut container) => {
                    if container.has_tag(TaskTag::DropLast) {
                        retained.push(container);
                    } else {
                        // a failure to wind down cannot be acted on here
                        let _ = container.end_task();
                    }
                },
                None => {},
            }
        }
        // final pass: the deferred containers follow, after everything else
        // is already gone
        while retained.len() > 0
            invariant
                self.hardware_registry == old(self).hardware_registry,
                self.diagnostics == old(self).diagnostics,
                self.tasks@.len() == 0,
            decreases retained@.len(),
        {
            match retained.pop() {
                Some(mut container) => {
                    let _ = container.end_task();
                },
                None => {},
            }
        }
    }
}

} // verus!
