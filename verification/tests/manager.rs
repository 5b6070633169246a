use std::sync::atomic::AtomicUsize;
use std::sync::atomic::Ordering;
use std::sync::Arc;
use std::sync::Mutex;

use trick::update_manager::channel::ChannelRegistry;
use trick::update_manager::container::LifecycleState;
use trick::update_manager::container::TaskContainer;
use trick::update_manager::container::TaskPermission;
use trick::update_manager::interpret_result;
use trick::update_manager::PostInit;
use trick::update_manager::Task;
use trick::update_manager::TaskError;
use trick::update_manager::TaskResult;
use trick::update_manager::TaskTag;
use trick::update_manager::TickAction;
use trick::update_manager::UpdateManager;
use trick::update_manager::UpdateReturn;

/// Counts its updates; always reports success.
struct CountingTask {
    updates: Arc<AtomicUsize>,
}

impl Task<String> for CountingTask {
    fn start(&mut self, _registry: &mut ChannelRegistry<String>) -> Result<PostInit, TaskError> {
        Ok(PostInit { name: "counting task", tags: &[], requests: &[] })
    }

    fn update(&mut self, _registry: &mut ChannelRegistry<String>) -> TaskResult {
        self.updates.fetch_add(1, Ordering::SeqCst);
        TaskResult::Okay
    }

    fn end(&mut self) -> Result<(), TaskError> {
        Ok(())
    }
}

/// Requests shutdown on every update, and counts how often it is asked.
struct ShutdownTask {
    updates: Arc<AtomicUsize>,
}

impl Task<String> for ShutdownTask {
    fn start(&mut self, _registry: &mut ChannelRegistry<String>) -> Result<PostInit, TaskError> {
        Ok(PostInit { name: "shutdown task", tags: &[], requests: &[] })
    }

    fn update(&mut self, _registry: &mut ChannelRegistry<String>) -> TaskResult {
        self.updates.fetch_add(1, Ordering::SeqCst);
        TaskResult::RequestShutdown
    }

    fn end(&mut self) -> Result<(), TaskError> {
        Ok(())
    }
}

/// Never comes up: start always fails.
struct FailingStartTask {
    updates: Arc<AtomicUsize>,
}

impl Task<String> for FailingStartTask {
    fn start(&mut self, _registry: &mut ChannelRegistry<String>) -> Result<PostInit, TaskError> {
        Err(TaskError::new(String::from("refusing to start")))
    }

    fn update(&mut self, _registry: &mut ChannelRegistry<String>) -> TaskResult {
        self.updates.fetch_add(1, Ordering::SeqCst);
        TaskResult::Okay
    }

    fn end(&mut self) -> Result<(), TaskError> {
        Ok(())
    }
}

/// Asks for one reload, logging every lifecycle call; each start announces a
/// new label and tag set.
struct ReloadOnceTask {
    log: Arc<Mutex<Vec<&'static str>>>,
    generation: usize,
    asked: bool,
}

impl Task<String> for ReloadOnceTask {
    fn start(&mut self, _registry: &mut ChannelRegistry<String>) -> Result<PostInit, TaskError> {
        self.log.lock().unwrap().push("start");
        self.generation += 1;
        if self.generation == 1 {
            Ok(PostInit { name: "first label", tags: &[], requests: &[] })
        } else {
            Ok(PostInit { name: "second label", tags: &[TaskTag::DropLast], requests: &[] })
        }
    }

    fn update(&mut self, _registry: &mut ChannelRegistry<String>) -> TaskResult {
        self.log.lock().unwrap().push("update");
        if self.asked {
            TaskResult::Okay
        } else {
            self.asked = true;
            TaskResult::ErrReload
        }
    }

    fn end(&mut self) -> Result<(), TaskError> {
        self.log.lock().unwrap().push("end");
        Ok(())
    }
}

/// Reports a fatal error on every update.
struct FatalTask {}

impl Task<String> for FatalTask {
    fn start(&mut self, _registry: &mut ChannelRegistry<String>) -> Result<PostInit, TaskError> {
        Ok(PostInit { name: "glitchy task", tags: &[], requests: &[] })
    }

    fn update(&mut self, _registry: &mut ChannelRegistry<String>) -> TaskResult {
        TaskResult::ErrFatal("boom")
    }

    fn end(&mut self) -> Result<(), TaskError> {
        Ok(())
    }
}

/// Comes up on the first start and fails every later one, so a reload of
/// it cannot succeed.
struct NoRestartTask {
    started: bool,
}

impl Task<String> for NoRestartTask {
    fn start(&mut self, _registry: &mut ChannelRegistry<String>) -> Result<PostInit, TaskError> {
        if self.started {
            Err(TaskError::new(String::from("cannot restart")))
        } else {
            self.started = true;
            Ok(PostInit { name: "fragile task", tags: &[], requests: &[] })
        }
    }

    fn update(&mut self, _registry: &mut ChannelRegistry<String>) -> TaskResult {
        TaskResult::ErrReload
    }

    fn end(&mut self) -> Result<(), TaskError> {
        Ok(())
    }
}

/// Logs its own drop, so teardown order is observable.
struct DropLogTask {
    name: &'static str,
    tags: &'static [TaskTag],
    log: Arc<Mutex<Vec<&'static str>>>,
}

impl Drop for DropLogTask {
    fn drop(&mut self) {
        self.log.lock().unwrap().push(self.name);
    }
}

impl Task<String> for DropLogTask {
    fn start(&mut self, _registry: &mut ChannelRegistry<String>) -> Result<PostInit, TaskError> {
        Ok(PostInit { name: self.name, tags: self.tags, requests: &[] })
    }

    fn update(&mut self, _registry: &mut ChannelRegistry<String>) -> TaskResult {
        TaskResult::Okay
    }

    fn end(&mut self) -> Result<(), TaskError> {
        self.log.lock().unwrap().push("end");
        Ok(())
    }
}

/// One half of a rendezvous pair: keeps asking the registry for its channel
/// until linked, then sends a greeting once and records everything received.
struct LinkingTask {
    channel: Option<trick::update_manager::channel::TaskChannel<String>>,
    greeting: &'static str,
    sent: bool,
    received: Arc<Mutex<Vec<String>>>,
}

impl Task<String> for LinkingTask {
    fn start(&mut self, _registry: &mut ChannelRegistry<String>) -> Result<PostInit, TaskError> {
        Ok(PostInit { name: "linking task", tags: &[], requests: &[] })
    }

    fn update(&mut self, registry: &mut ChannelRegistry<String>) -> TaskResult {
        if self.channel.is_none() {
            self.channel = registry.get_or_create("link");
        }
        if let Some(channel) = &self.channel {
            if !self.sent {
                self.sent = true;
                let _ = channel.send(String::from(self.greeting));
            }
            while let Some(message) = channel.try_recv() {
                self.received.lock().unwrap().push(message);
            }
        }
        TaskResult::Okay
    }

    fn end(&mut self) -> Result<(), TaskError> {
        Ok(())
    }
}

#[test]
fn failed_start_is_never_scheduled() {
    let mut manager: UpdateManager<String> = UpdateManager::new().unwrap();
    let updates = Arc::new(AtomicUsize::new(0));
    let attempt = manager.add_task(
        Box::new(FailingStartTask { updates: updates.clone() }),
        TaskPermission::Root,
    );
    assert!(attempt.is_err());
    assert_eq!(manager.task_count(), 0);
    assert_eq!(manager.update_tasks(), UpdateReturn::Continue);
    assert_eq!(updates.load(Ordering::SeqCst), 0);
}

#[test]
fn root_shutdown_halts_the_tick() {
    let mut manager: UpdateManager<String> = UpdateManager::new().unwrap();
    let before = Arc::new(AtomicUsize::new(0));
    let asked = Arc::new(AtomicUsize::new(0));
    let after = Arc::new(AtomicUsize::new(0));
    manager
        .add_task(Box::new(CountingTask { updates: before.clone() }), TaskPermission::Root)
        .unwrap();
    manager
        .add_task(Box::new(ShutdownTask { updates: asked.clone() }), TaskPermission::Root)
        .unwrap();
    manager
        .add_task(Box::new(CountingTask { updates: after.clone() }), TaskPermission::Root)
        .unwrap();
    assert_eq!(manager.update_tasks(), UpdateReturn::Shutdown);
    assert_eq!(before.load(Ordering::SeqCst), 1);
    assert_eq!(asked.load(Ordering::SeqCst), 1);
    assert_eq!(after.load(Ordering::SeqCst), 0);
}

#[test]
fn non_root_shutdown_is_absorbed() {
    let mut manager: UpdateManager<String> = UpdateManager::new().unwrap();
    let asked = Arc::new(AtomicUsize::new(0));
    let after = Arc::new(AtomicUsize::new(0));
    manager
        .add_task(Box::new(ShutdownTask { updates: asked.clone() }), TaskPermission::User)
        .unwrap();
    manager
        .add_task(Box::new(CountingTask { updates: after.clone() }), TaskPermission::Root)
        .unwrap();
    assert_eq!(manager.update_tasks(), UpdateReturn::Continue);
    assert_eq!(manager.update_tasks(), UpdateReturn::Continue);
    // the requesting task keeps being ticked, and so does everything after it
    assert_eq!(asked.load(Ordering::SeqCst), 2);
    assert_eq!(after.load(Ordering::SeqCst), 2);
}

#[test]
fn reload_is_one_end_then_one_start() {
    let log: Arc<Mutex<Vec<&'static str>>> = Arc::new(Mutex::new(Vec::new()));
    let mut registry: ChannelRegistry<String> = ChannelRegistry::new();
    let task = ReloadOnceTask { log: log.clone(), generation: 0, asked: false };
    let mut container =
        TaskContainer::new(Box::new(task), TaskPermission::Root, &mut registry).unwrap();
    assert_eq!(container.get_label(), "first label");
    assert!(!container.has_tag(TaskTag::DropLast));
    let result = container.run(&mut registry);
    assert!(matches!(result, TaskResult::ErrReload));
    container.reload_task(&mut registry).unwrap();
    // exactly one end, immediately followed by exactly one start
    assert_eq!(*log.lock().unwrap(), vec!["start", "update", "end", "start"]);
    // the label and tags now match the fresh PostInit
    assert_eq!(container.get_label(), "second label");
    assert!(container.has_tag(TaskTag::DropLast));
    assert_eq!(container.get_tag(), &[TaskTag::DropLast]);
    assert!(*container.get_permission() == TaskPermission::Root);
}

#[test]
fn manager_reloads_inline_and_goes_on() {
    let log: Arc<Mutex<Vec<&'static str>>> = Arc::new(Mutex::new(Vec::new()));
    let after = Arc::new(AtomicUsize::new(0));
    let mut manager: UpdateManager<String> = UpdateManager::new().unwrap();
    manager
        .add_task(
            Box::new(ReloadOnceTask { log: log.clone(), generation: 0, asked: false }),
            TaskPermission::Root,
        )
        .unwrap();
    manager
        .add_task(Box::new(CountingTask { updates: after.clone() }), TaskPermission::Root)
        .unwrap();
    assert_eq!(manager.update_tasks(), UpdateReturn::Continue);
    assert_eq!(*log.lock().unwrap(), vec!["start", "update", "end", "start"]);
    assert_eq!(after.load(Ordering::SeqCst), 1);
    // the reloaded task is ticked again on the next pass
    assert_eq!(manager.update_tasks(), UpdateReturn::Continue);
    assert_eq!(*log.lock().unwrap(), vec!["start", "update", "end", "start", "update"]);
}

#[test]
fn failed_reload_escalates_to_shutdown() {
    let mut manager: UpdateManager<String> = UpdateManager::new().unwrap();
    let after = Arc::new(AtomicUsize::new(0));
    manager.add_task(Box::new(NoRestartTask { started: false }), TaskPermission::Root).unwrap();
    manager
        .add_task(Box::new(CountingTask { updates: after.clone() }), TaskPermission::Root)
        .unwrap();
    assert_eq!(manager.update_tasks(), UpdateReturn::Shutdown);
    assert_eq!(after.load(Ordering::SeqCst), 0);
    // the task stays scheduled but broken; later ticks absorb its fatal state
    assert_eq!(manager.task_count(), 2);
    assert_eq!(manager.update_tasks(), UpdateReturn::Continue);
    assert_eq!(after.load(Ordering::SeqCst), 1);
}

#[test]
fn broken_container_reports_fatal_without_running() {
    let mut registry: ChannelRegistry<String> = ChannelRegistry::new();
    let mut container = TaskContainer::new(
        Box::new(NoRestartTask { started: false }),
        TaskPermission::Root,
        &mut registry,
    )
    .unwrap();
    assert!(container.reload_task(&mut registry).is_err());
    assert!(matches!(container.run(&mut registry), TaskResult::ErrFatal(_)));
}

#[test]
fn result_interpretation_table() {
    let root = TaskPermission::Root;
    let user = TaskPermission::User;
    assert_eq!(interpret_result(&TaskResult::Okay, &root), TickAction::Proceed);
    assert_eq!(interpret_result(&TaskResult::Okay, &user), TickAction::Proceed);
    assert_eq!(interpret_result(&TaskResult::ErrFatal("boom"), &root), TickAction::Proceed);
    assert_eq!(interpret_result(&TaskResult::ErrFatal("boom"), &user), TickAction::Proceed);
    assert_eq!(interpret_result(&TaskResult::ErrReload, &root), TickAction::Reload);
    assert_eq!(interpret_result(&TaskResult::ErrReload, &user), TickAction::Reload);
    assert_eq!(interpret_result(&TaskResult::RequestShutdown, &root), TickAction::Halt);
    assert_eq!(interpret_result(&TaskResult::RequestShutdown, &user), TickAction::Proceed);
}

#[test]
fn lifecycle_states_compare() {
    assert_eq!(LifecycleState::Running, LifecycleState::Running);
    assert_ne!(LifecycleState::Running, LifecycleState::Broken);
}

#[test]
fn teardown_keeps_tagged_tasks_for_the_last_pass() {
    let log: Arc<Mutex<Vec<&'static str>>> = Arc::new(Mutex::new(Vec::new()));
    let mut manager: UpdateManager<String> = UpdateManager::new().unwrap();
    manager
        .add_task(
            Box::new(DropLogTask { name: "early", tags: &[], log: log.clone() }),
            TaskPermission::Root,
        )
        .unwrap();
    manager
        .add_task(
            Box::new(DropLogTask { name: "keeper", tags: &[TaskTag::DropLast], log: log.clone() }),
            TaskPermission::Root,
        )
        .unwrap();
    manager
        .add_task(
            Box::new(DropLogTask { name: "late", tags: &[], log: log.clone() }),
            TaskPermission::Root,
        )
        .unwrap();
    manager.teardown();
    assert_eq!(manager.task_count(), 0);
    let order = log.lock().unwrap().clone();
    // each task runs its end as part of being released
    let drops: Vec<&str> = order.iter().copied().filter(|entry| *entry != "end").collect();
    let ends = order.iter().filter(|entry| **entry == "end").count();
    assert_eq!(drops.len(), 3);
    assert_eq!(ends, 3);
    // every untagged task is released before the tagged one
    assert_eq!(drops[2], "keeper");
    // the tagged task is the very last thing released
    assert_eq!(order.last().copied(), Some("keeper"));
}

#[test]
fn tasks_rendezvous_through_the_manager() {
    let a_received: Arc<Mutex<Vec<String>>> = Arc::new(Mutex::new(Vec::new()));
    let b_received: Arc<Mutex<Vec<String>>> = Arc::new(Mutex::new(Vec::new()));
    let mut manager: UpdateManager<String> = UpdateManager::new().unwrap();
    manager
        .add_task(
            Box::new(LinkingTask {
                channel: None,
                greeting: "hello from a",
                sent: false,
                received: a_received.clone(),
            }),
            TaskPermission::Root,
        )
        .unwrap();
    manager
        .add_task(
            Box::new(LinkingTask {
                channel: None,
                greeting: "hello from b",
                sent: false,
                received: b_received.clone(),
            }),
            TaskPermission::Root,
        )
        .unwrap();
    // tick one: A registers and waits; B gets linked and sends
    assert_eq!(manager.update_tasks(), UpdateReturn::Continue);
    // tick two: A picks up the parked counterpart and sends; B receives
    assert_eq!(manager.update_tasks(), UpdateReturn::Continue);
    assert_eq!(*a_received.lock().unwrap(), vec![String::from("hello from b")]);
    assert_eq!(*b_received.lock().unwrap(), vec![String::from("hello from a")]);
}

#[test]
fn container_captures_the_announced_record() {
    let post_init = PostInit {
        name: "announced label",
        tags: &[TaskTag::DropLast],
        requests: &[],
    };
    let container = TaskContainer::from_post_init(
        Box::new(CountingTask { updates: Arc::new(AtomicUsize::new(0)) }),
        TaskPermission::User,
        post_init,
    );
    assert_eq!(container.get_label(), "announced label");
    assert_eq!(container.get_tag(), &[TaskTag::DropLast]);
    assert!(*container.get_permission() == TaskPermission::User);
    assert_eq!(container.get_lifecycle(), LifecycleState::Running);
}

#[test]
fn apply_post_init_replaces_label_and_tags_wholesale() {
    let mut registry: ChannelRegistry<String> = ChannelRegistry::new();
    let mut container = TaskContainer::new(
        Box::new(CountingTask { updates: Arc::new(AtomicUsize::new(0)) }),
        TaskPermission::Root,
        &mut registry,
    )
    .unwrap();
    assert_eq!(container.get_label(), "counting task");
    container.apply_post_init(PostInit {
        name: "renamed task",
        tags: &[TaskTag::DropLast],
        requests: &[],
    });
    assert_eq!(container.get_label(), "renamed task");
    assert_eq!(container.get_tag(), &[TaskTag::DropLast]);
    assert!(*container.get_permission() == TaskPermission::Root);
    assert_eq!(container.get_lifecycle(), LifecycleState::Running);
}

#[test]
fn fatal_event_leaves_a_diagnostic_line() {
    let mut manager: UpdateManager<String> = UpdateManager::new().unwrap();
    manager.add_task(Box::new(FatalTask {}), TaskPermission::Root).unwrap();
    assert_eq!(manager.update_tasks(), UpdateReturn::Continue);
    let lines = manager.take_diagnostics();
    assert_eq!(lines.len(), 1);
    assert_eq!(lines[0], "task glitchy task returned with fatal error: boom");
    // taking hands everything over; nothing is left behind
    assert!(manager.take_diagnostics().is_empty());
    // the next tick reports the event again
    assert_eq!(manager.update_tasks(), UpdateReturn::Continue);
    assert_eq!(manager.take_diagnostics().len(), 1);
}

#[test]
fn reload_events_leave_diagnostic_lines() {
    let log: Arc<Mutex<Vec<&'static str>>> = Arc::new(Mutex::new(Vec::new()));
    let mut manager: UpdateManager<String> = UpdateManager::new().unwrap();
    manager
        .add_task(
            Box::new(ReloadOnceTask { log: log.clone(), generation: 0, asked: false }),
            TaskPermission::Root,
        )
        .unwrap();
    assert_eq!(manager.update_tasks(), UpdateReturn::Continue);
    let lines = manager.take_diagnostics();
    assert_eq!(lines.len(), 1);
    // the line names the task as it was known when the event happened
    assert_eq!(lines[0], "task first label reloaded");
    // a clean tick leaves no diagnostics
    assert_eq!(manager.update_tasks(), UpdateReturn::Continue);
    assert!(manager.take_diagnostics().is_empty());
}

#[test]
fn failed_reload_leaves_a_diagnostic_line() {
    let mut manager: UpdateManager<String> = UpdateManager::new().unwrap();
    manager.add_task(Box::new(NoRestartTask { started: false }), TaskPermission::Root).unwrap();
    assert_eq!(manager.update_tasks(), UpdateReturn::Shutdown);
    let lines = manager.take_diagnostics();
    assert_eq!(lines.len(), 1);
    assert_eq!(lines[0], "task fragile task failed to reload: cannot restart");
}
