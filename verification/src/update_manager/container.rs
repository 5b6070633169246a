//! The exclusive-ownership wrapper around one task: label, tags, permission,
//! and the explicit lifecycle state machine driven by run and reload.
use vstd::prelude::*;

use crate::update_manager::channel::ChannelRegistry;
use crate::update_manager::PostInit;
use crate::update_manager::Task;
use crate::update_manager::TaskError;
use crate::update_manager::TaskResult;
use crate::update_manager::TaskTag;

verus! {

/// Permission level attached to a container at registration time; never
/// changes for the container's lifetime.  Only a task registered as `Root`
/// can bring the whole manager down with a shutdown request.
#[derive(Clone, PartialEq, Eq, Structural, Debug)]
pub enum TaskPermission {
    Root,
    User,
}

/// The container's explicit lifecycle: a healthy task is `Running`; a reload
/// passes through `Stopping` and `Starting`; a reload whose restart fails
/// leaves the terminal `Broken` state, never a half-initialized task.
#[derive(Clone, Copy, PartialEq, Eq, Structural, Debug)]
pub enum LifecycleState {
    Running,
    Stopping,
    Starting,
    Broken,
}

/// Owns one task exclusively and serializes all access to it; records the
/// task's human-readable label, capability tags and permission level, and
/// exposes the lifecycle-safe supervision primitives.
#[verifier::reject_recursive_types(M)]
pub struct TaskContainer<M> {
    task: Box<dyn Task<M>>,
    task_label: &'static str,
    tags: &'static [TaskTag],
    task_permission: TaskPermission,
    state: LifecycleState,
}

impl<M> TaskContainer<M> {
    /// The permission the container was registered with.
    pub closed spec fn permission(self) -> TaskPermission {
        self.task_permission
    }

    /// The display label captured from the task's latest successful start.
    pub closed spec fn label(self) -> Seq<char> {
        self.task_label@
    }

    /// The capability tags captured from the task's latest successful start.
    pub closed spec fn tag_seq(self) -> Seq<TaskTag> {
        self.tags@
    }

    /// Where the container stands in its lifecycle.
    pub closed spec fn lifecycle(self) -> LifecycleState {
        self.state
    }

    /// Wraps a task whose `start` just succeeded, capturing the label and
    /// tags it announced in the returned [`PostInit`].
    pub fn from_post_init(
        task: Box<dyn Task<M>>,
        permissions: TaskPermission,
        post_init: PostInit,
    ) -> (c: TaskContainer<M>)
        ensures
            c.label() == post_init.name@,
            c.tag_seq() == post_init.tags@,
            c.permission() == permissions,
            c.lifecycle() is Running,
    {
        TaskContainer {
            task,
            task_label: post_init.name,
            tags: post_init.tags,
            task_permission: permissions,
            state: LifecycleState::Running,
        }
    }

    /// Records the announcement of the task's latest successful start: the
    /// label and tags are replaced wholesale by the fresh [`PostInit`] and
    /// the container runs again.
    pub fn apply_post_init(&mut self, post_init: PostInit)
        ensures
            final(self).label() == post_init.name@,
            final(self).tag_seq() == post_init.tags@,
            final(self).permission() == old(self).permission(),
            final(self).lifecycle() is Running,
    {
        self.task_label = post_init.name;
        self.tags = post_init.tags;
        self.state = LifecycleState::Running;
    }

    /// Starts the task and wraps it on success, capturing the label and tags
    /// it announced (see [`Self::from_post_init`], which states the
    /// capture); if the start fails, no container is created and the error
    /// propagates to the registration call.
    pub fn new(
        task: Box<dyn Task<M>>,
        permissions: TaskPermission,
        registry: &mut ChannelRegistry<M>,
    ) -> (r: Result<TaskContainer<M>, TaskError>)
        requires
            old(registry).wf(),
        ensures
            final(registry).wf(),
            r matches Ok(c) ==> c.permission() == permissions && c.lifecycle() is Running,
    {
        let mut task = task;
        match task.start(registry) {
            Ok(post_init) => Ok(TaskContainer::from_post_init(task, permissions, post_init)),
            Err(error) => Err(error),
        }
    }

    pub fn get_permission(&self) -> (r: &TaskPermission)
        ensures
            *r == self.permission(),
    {
        &self.task_permission
    }

    pub fn get_label(&self) -> (r: &str)
        ensures
            r@ == self.label(),
    {
        self.task_label
    }

    pub fn get_tag(&self) -> (r: &'static [TaskTag])
        ensures
            r@ == self.tag_seq(),
    {
        self.tags
    }

    pub fn get_lifecycle(&self) -> (r: LifecycleState)
        ensures
            r == self.lifecycle(),
    {
        self.state
    }

    /// Whether the container carries the given tag.
    pub fn has_tag(&self, tag: TaskTag) -> (r: bool)
        ensures
            r == self.tag_seq().contains(tag),
    {
        let mut i: usize = 0;
        while i < self.tags.len()
            invariant
                i <= self.tags@.len(),
                forall|j: int| 0 <= j < i ==> self.tags@[j] != tag,
            decreases self.tags@.len() - i,
        {
            if self.tags[i] == tag {
                return true;
            }
            i = i + 1;
        }
        false
    }

    /// Ends the task, then starts it again, capturing the fresh label and
    /// tags (see [`Self::apply_post_init`], which states the capture).  If
    /// either step fails the container is left `Broken` — there is no
    /// recoverable task state, and the manager is expected to escalate —
    /// and the error is returned for it to act on.
    pub fn reload_task(&mut self, registry: &mut ChannelRegistry<M>) -> (r: Result<(), TaskError>)
        requires
            old(registry).wf(),
        ensures
            final(registry).wf(),
            final(self).permission() == old(self).permission(),
            r is Ok <==> final(self).lifecycle() is Running,
            r is Err <==> final(self).lifecycle() is Broken,
    {
        self.state = LifecycleState::Stopping;
        match self.task.end() {
            Ok(()) => {},
            Err(error) => {
                self.state = LifecycleState::Broken;
                return Err(error);
            },
        }
        self.state = LifecycleState::Starting;
        match self.task.start(registry) {
            Ok(post_init) => {
                self.apply_post_init(post_init);
                Ok(())
            },
            Err(error) => {
                self.state = LifecycleState::Broken;
                Err(error)
            },
        }
    }

    /// Lets the task release its resources ahead of the container going
    /// away; called by the manager's teardown pass.
    pub(crate) fn end_task(&mut self) -> (r: Result<(), TaskError>) {
        self.task.end()
    }

    /// One scheduled update of the task, under exclusive access.  A
    /// container that is not in a runnable state reports a fatal error
    /// instead of touching the task; this failure path never panics.
    pub fn run(&mut self, registry: &mut ChannelRegistry<M>) -> (r: TaskResult)
        requires
            old(registry).wf(),
        ensures
            final(registry).wf(),
            final(self).permission() == old(self).permission(),
            final(self).label() == old(self).label(),
            final(self).tag_seq() == old(self).tag_seq(),
            final(self).lifecycle() == old(self).lifecycle(),
            !(old(self).lifecycle() is Running) ==> r is ErrFatal,
    {
        match self.state {
            LifecycleState::Running => self.task.update(registry),
            _ => TaskResult::ErrFatal("task is not in a runnable state"),
        }
    }
}

} // verus!
