//! Background workers: a supervisor that records which workers run, and a
//! first-in first-out queue of background tasks.

use vstd::prelude::*;
use crate::str_map::{StrMap, kv_insert, lookup};
use crate::json::JsonValue;

verus! {

/// Status of a background worker.
#[derive(Debug, Clone, Copy, PartialEq, Eq, Structural)]
pub enum WorkerStatus {
    /// Worker is running.
    Running,
    /// Worker is idle.
    Idle,
    /// Worker is processing a task.
    Processing,
    /// Worker has failed.
    Failed,
    /// Worker is being restarted.
    Restarting,
}

/// Worker supervisor: the status of each active worker, by name.
pub struct WorkerSupervisor {
    /// Active workers by name.
    pub workers: StrMap<WorkerStatus>,
}

impl Default for WorkerSupervisor {
    fn default() -> (r: Self)
        ensures
            r.workers@ == Seq::<(Seq<char>, WorkerStatus)>::empty(),
    {
        WorkerSupervisor { workers: StrMap::new() }
    }
}

/// A queued background task.
#[derive(Debug)]
pub struct BackgroundTask {
    /// Task identifier.
    pub id: String,
    /// Type of task.
    pub task_type: String,
    /// Priority level.
    pub priority: String,
    /// Status.
    pub status: String,
    /// Payload data.
    pub payload: JsonValue,
    /// Created timestamp, in seconds since the Unix epoch.
    pub created_at: i64,
}

impl BackgroundTask {
    /// Create a new pending task, stamped with the current time.
    pub fn new(id: String, task_type: String, priority: String, payload: JsonValue) -> (r: Self)
        ensures
            r.id@ == id@,
            r.task_type@ == task_type@,
            r.priority@ == priority@,
            r.status@ == "pending"@,
            r.payload@ == payload@,
    {
        BackgroundTask {
            id,
            task_type,
            priority,
            status: crate::text::owned("pending"),
            payload,
            created_at: crate::ids::now_timestamp(),
        }
    }
}

impl Clone for BackgroundTask {
    fn clone(&self) -> (r: Self)
        ensures
            r.id@ == self.id@,
            r.task_type@ == self.task_type@,
            r.priority@ == self.priority@,
            r.status@ == self.status@,
            r.payload@ == self.payload@,
            r.created_at == self.created_at,
    {
        BackgroundTask {
            id: self.id.clone(),
            task_type: self.task_type.clone(),
            priority: self.priority.clone(),
            status: self.status.clone(),
            payload: self.payload.clone(),
            created_at: self.created_at,
        }
    }
}

/// Memory worker handles memory-related background tasks.
#[derive(Debug, Clone)]
pub struct MemoryWorker {
    /// Whether the worker is enabled.
    pub enabled: bool,
    /// Current priority.
    pub priority: String,
}

/// Learning worker handles learning-related background tasks.
#[derive(Debug, Clone)]
pub struct LearningWorker {
    /// Whether the worker is enabled.
    pub enabled: bool,
    /// Current priority.
    pub priority: String,
}

/// Experience worker handles experience-related background tasks.
#[derive(Debug, Clone)]
pub struct ExperienceWorker {
    /// Whether the worker is enabled.
    pub enabled: bool,
    /// Current priority.
    pub priority: String,
}

/// Knowledge graph worker handles graph-related background tasks.
#[derive(Debug, Clone)]
pub struct KnowledgeGraphWorker {
    /// Whether the worker is enabled.
    pub enabled: bool,
    /// Current priority.
    pub priority: String,
}

/// Maintenance worker handles system maintenance tasks.
#[derive(Debug, Clone)]
pub struct MaintenanceWorker {
    /// Whether the worker is enabled.
    pub enabled: bool,
    /// Current priority.
    pub priority: String,
}

impl Default for MemoryWorker {
    fn default() -> (r: Self)
        ensures
            !r.enabled,
            r.priority@ == Seq::<char>::empty(),
    {
        MemoryWorker { enabled: false, priority: String::new() }
    }
}

impl Default for LearningWorker {
    fn default() -> (r: Self)
        ensures
            !r.enabled,
            r.priority@ == Seq::<char>::empty(),
    {
        LearningWorker { enabled: false, priority: String::new() }
    }
}

impl Default for ExperienceWorker {
    fn default() -> (r: Self)
        ensures
            !r.enabled,
            r.priority@ == Seq::<char>::empty(),
    {
        ExperienceWorker { enabled: false, priority: String::new() }
    }
}

impl Default for KnowledgeGraphWorker {
    fn default() -> (r: Self)
        ensures
            !r.enabled,
            r.priority@ == Seq::<char>::empty(),
    {
        KnowledgeGraphWorker { enabled: false, priority: String::new() }
    }
}

impl Default for MaintenanceWorker {
    fn default() -> (r: Self)
        ensures
            !r.enabled,
            r.priority@ == Seq::<char>::empty(),
    {
        MaintenanceWorker { enabled: false, priority: String::new() }
    }
}

/// The background worker system: a supervisor, five workers and a queue.
pub struct BackgroundWorkerSystem {
    /// Supervisor for all workers.
    pub supervisor: WorkerSupervisor,
    /// Memory worker.
    pub memory_worker: MemoryWorker,
    /// Learning worker.
    pub learning_worker: LearningWorker,
    /// Experience worker.
    pub experience_worker: ExperienceWorker,
    /// Knowledge graph worker.
    pub knowledge_graph_worker: KnowledgeGraphWorker,
    /// Maintenance worker.
    pub maintenance_worker: MaintenanceWorker,
    /// Task queue, oldest first.
    pub task_queue: Vec<BackgroundTask>,
}

/// The workers' names paired with whether each is enabled, in start order.
pub open spec fn worker_switches(s: BackgroundWorkerSystem) -> Seq<(Seq<char>, bool)> {
    seq![
        ("memory"@, s.memory_worker.enabled),
        ("learning"@, s.learning_worker.enabled),
        ("experience"@, s.experience_worker.enabled),
        ("knowledge_graph"@, s.knowledge_graph_worker.enabled),
        ("maintenance"@, s.maintenance_worker.enabled),
    ]
}

/// The supervisor's entries after marking every enabled worker running.
pub open spec fn started(
    workers: Seq<(Seq<char>, WorkerStatus)>,
    switches: Seq<(Seq<char>, bool)>,
) -> Seq<(Seq<char>, WorkerStatus)>
    decreases switches.len(),
{
    if switches.len() == 0 {
        workers
    } else {
        let prev = started(workers, switches.drop_last());
        if switches.last().1 {
            kv_insert(prev, switches.last().0, WorkerStatus::Running)
        } else {
            prev
        }
    }
}

impl BackgroundWorkerSystem {
    /// Create a system with all five workers enabled (memory and
    /// experience at normal priority, the others low), no worker started
    /// and an empty queue.
    pub fn new() -> (r: Self)
        ensures
            r.supervisor.workers@ == Seq::<(Seq<char>, WorkerStatus)>::empty(),
            r.memory_worker.enabled && r.memory_worker.priority@ == "normal"@,
            r.learning_worker.enabled && r.learning_worker.priority@ == "low"@,
            r.experience_worker.enabled && r.experience_worker.priority@ == "normal"@,
            r.knowledge_graph_worker.enabled && r.knowledge_graph_worker.priority@ == "low"@,
            r.maintenance_worker.enabled && r.maintenance_worker.priority@ == "low"@,
            r.task_queue@.len() == 0,
    {
        BackgroundWorkerSystem {
            supervisor: WorkerSupervisor::default(),
            memory_worker: MemoryWorker { enabled: true, priority: crate::text::owned("normal") },
            learning_worker: LearningWorker { enabled: true, priority: crate::text::owned("low") },
            experience_worker: ExperienceWorker { enabled: true, priority: crate::text::owned("normal") },
            knowledge_graph_worker: KnowledgeGraphWorker { enabled: true, priority: crate::text::owned("low") },
            maintenance_worker: MaintenanceWorker { enabled: true, priority: crate::text::owned("low") },
            task_queue: Vec::new(),
        }
    }

    /// Enqueue a task at the back of the queue.
    pub fn enqueue_task(&mut self, task: BackgroundTask)
        ensures
            final(self).task_queue@ == old(self).task_queue@.push(task),
            final(self).supervisor.workers@ == old(self).supervisor.workers@,
            worker_switches(*final(self)) == worker_switches(*old(self)),
    {
        self.task_queue.push(task);
    }

    /// The number of pending tasks.
    pub fn pending_tasks(&self) -> (r: usize)
        ensures
            r == self.task_queue@.len(),
    {
        self.task_queue.len()
    }

    /// Take the oldest pending task, if any.
    pub fn process_next(&mut self) -> (r: Option<BackgroundTask>)
        ensures
            old(self).task_queue@.len() == 0 ==> r is None && final(self).task_queue@ == old(self).task_queue@,
            old(self).task_queue@.len() > 0 ==> r == Some(old(self).task_queue@[0])
                && final(self).task_queue@ == old(self).task_queue@.drop_first(),
            final(self).supervisor.workers@ == old(self).supervisor.workers@,
            worker_switches(*final(self)) == worker_switches(*old(self)),
    {
        if self.task_queue.len() == 0 {
            return None;
        }
        let t = self.task_queue.remove(0);
        assert(self.task_queue@ =~= old(self).task_queue@.drop_first());
        Some(t)
    }

    /// Mark every enabled worker running, in the order memory, learning,
    /// experience, knowledge graph, maintenance.
    pub fn start_workers(&mut self)
        ensures
            final(self).supervisor.workers@ == started(old(self).supervisor.workers@, worker_switches(*old(self))),
            final(self).task_queue@ == old(self).task_queue@,
            worker_switches(*final(self)) == worker_switches(*old(self)),
    {
        let ghost w0 = self.supervisor.workers@;
        let ghost sw = worker_switches(*self);
        proof {
            reveal_with_fuel(started, 6);
            assert(sw.drop_last() =~= seq![sw[0], sw[1], sw[2], sw[3]]);
            assert(sw.drop_last().drop_last() =~= seq![sw[0], sw[1], sw[2]]);
            assert(sw.drop_last().drop_last().drop_last() =~= seq![sw[0], sw[1]]);
            assert(sw.drop_last().drop_last().drop_last().drop_last() =~= seq![sw[0]]);
            assert(sw.drop_last().drop_last().drop_last().drop_last().drop_last() =~= Seq::<(Seq<char>, bool)>::empty());
        }
        if self.memory_worker.enabled {
            self.supervisor.workers.insert(crate::text::owned("memory"), WorkerStatus::Running);
        }
        assert(self.supervisor.workers@ == started(w0, seq![sw[0]]));
        if self.learning_worker.enabled {
            self.supervisor.workers.insert(crate::text::owned("learning"), WorkerStatus::Running);
        }
        assert(seq![sw[0], sw[1]].drop_last() =~= seq![sw[0]]);
        assert(self.supervisor.workers@ == started(w0, seq![sw[0], sw[1]]));
        if self.experience_worker.enabled {
            self.supervisor.workers.insert(crate::text::owned("experience"), WorkerStatus::Running);
        }
        assert(seq![sw[0], sw[1], sw[2]].drop_last() =~= seq![sw[0], sw[1]]);
        assert(self.supervisor.workers@ == started(w0, seq![sw[0], sw[1], sw[2]]));
        if self.knowledge_graph_worker.enabled {
            self.supervisor.workers.insert(crate::text::owned("knowledge_graph"), WorkerStatus::Running);
        }
        assert(seq![sw[0], sw[1], sw[2], sw[3]].drop_last() =~= seq![sw[0], sw[1], sw[2]]);
        assert(self.supervisor.workers@ == started(w0, seq![sw[0], sw[1], sw[2], sw[3]]));
        if self.maintenance_worker.enabled {
            self.supervisor.workers.insert(crate::text::owned("maintenance"), WorkerStatus::Running);
        }
        assert(sw =~= seq![sw[0], sw[1], sw[2], sw[3], sw[4]]);
        assert(seq![sw[0], sw[1], sw[2], sw[3], sw[4]].drop_last() =~= seq![sw[0], sw[1], sw[2], sw[3]]);
    }

    /// Stop all workers: the supervisor forgets them.
    pub fn stop_workers(&mut self)
        ensures
            final(self).supervisor.workers@ == Seq::<(Seq<char>, WorkerStatus)>::empty(),
            final(self).task_queue@ == old(self).task_queue@,
            worker_switches(*final(self)) == worker_switches(*old(self)),
    {
        self.supervisor.workers.clear();
    }

    /// The status of every active worker.
    pub fn check_health(&self) -> (r: StrMap<WorkerStatus>)
        ensures
            r@ == self.supervisor.workers@,
    {
        self.supervisor.workers.copy()
    }
}

impl Default for BackgroundWorkerSystem {
    fn default() -> (r: Self)
        ensures
            r.supervisor.workers@ == Seq::<(Seq<char>, WorkerStatus)>::empty(),
            !r.memory_worker.enabled,
            !r.learning_worker.enabled,
            !r.experience_worker.enabled,
            !r.knowledge_graph_worker.enabled,
            !r.maintenance_worker.enabled,
            r.task_queue@.len() == 0,
    {
        BackgroundWorkerSystem {
            supervisor: WorkerSupervisor::default(),
            memory_worker: MemoryWorker::default(),
            learning_worker: LearningWorker::default(),
            experience_worker: ExperienceWorker::default(),
            knowledge_graph_worker: KnowledgeGraphWorker::default(),
            maintenance_worker: MaintenanceWorker::default(),
            task_queue: Vec::new(),
        }
    }
}

/// Exercise the worker system: enqueue a task, start the workers, enqueue
/// two more, take one and stop. Returns the number of workers and pending
/// tasks before starting, after the enqueues, after taking one, and the
/// identifier of the task taken.
pub fn reference_background_worker_contracts() -> (r: (usize, usize, usize, usize, usize, String))
    ensures
        r.0 == 0,
        r.1 == 1,
        r.2 == 5,
        r.3 == 3,
        r.4 == 2,
        r.5@ == "test-1"@,
{
    let mut system = BackgroundWorkerSystem::new();
    let task = BackgroundTask::new(crate::text::owned("test-1"), crate::text::owned("memory"), crate::text::owned("normal"), JsonValue::Object(Vec::new()));
    let task_id = task.id.clone();
    system.enqueue_task(task);
    let health_before = system.check_health();
    let workers_before = health_before.len();
    let pending_before = system.pending_tasks();
    assert(worker_switches(system) =~= seq![("memory"@, true), ("learning"@, true), ("experience"@, true), ("knowledge_graph"@, true), ("maintenance"@, true)]);
    system.start_workers();
    proof {
        lemma_five_workers();
    }
    system.enqueue_task(BackgroundTask::new(crate::text::owned("test-2"), crate::text::owned("learning"), crate::text::owned("normal"), JsonValue::Object(Vec::new())));
    system.enqueue_task(BackgroundTask::new(crate::text::owned("test-3"), crate::text::owned("experience"), crate::text::owned("normal"), JsonValue::Object(Vec::new())));
    let workers = system.supervisor.workers.len();
    let pending = system.pending_tasks();
    let processed = system.process_next();
    let processed_id = match processed {
        Some(t) => t.id,
        None => String::new(),
    };
    let pending_after = system.pending_tasks();
    system.stop_workers();
    (workers_before, pending_before, workers, pending, pending_after, processed_id)
}

/// Starting the five workers of a fresh system registers five entries.
proof fn lemma_five_workers()
    ensures
        started(
            Seq::<(Seq<char>, WorkerStatus)>::empty(),
            seq![("memory"@, true), ("learning"@, true), ("experience"@, true), ("knowledge_graph"@, true), ("maintenance"@, true)],
        ).len() == 5,
{
    reveal_with_fuel(started, 6);
    reveal_strlit("memory");
    reveal_strlit("learning");
    reveal_strlit("experience");
    reveal_strlit("knowledge_graph");
    reveal_strlit("maintenance");
    let sw = seq![("memory"@, true), ("learning"@, true), ("experience"@, true), ("knowledge_graph"@, true), ("maintenance"@, true)];
    assert(sw.drop_last() =~= seq![sw[0], sw[1], sw[2], sw[3]]);
    assert(seq![sw[0], sw[1], sw[2], sw[3]].drop_last() =~= seq![sw[0], sw[1], sw[2]]);
    assert(seq![sw[0], sw[1], sw[2]].drop_last() =~= seq![sw[0], sw[1]]);
    assert(seq![sw[0], sw[1]].drop_last() =~= seq![sw[0]]);
    assert(seq![sw[0]].drop_last() =~= Seq::<(Seq<char>, bool)>::empty());
    let e = Seq::<(Seq<char>, WorkerStatus)>::empty();
    let s1 = kv_insert(e, "memory"@, WorkerStatus::Running);
    assert(s1.len() == 1);
    assert(s1[0].0 == "memory"@);
    let s2 = kv_insert(s1, "learning"@, WorkerStatus::Running);
    crate::str_map::lemma_key_pos_absent(s1, "learning"@);
    assert(s2.len() == 2);
    assert(s2[1].0 == "learning"@);
    let s3 = kv_insert(s2, "experience"@, WorkerStatus::Running);
    crate::str_map::lemma_key_pos_absent(s2, "experience"@);
    assert(s3.len() == 3);
    assert(s3[2].0 == "experience"@);
    let s4 = kv_insert(s3, "knowledge_graph"@, WorkerStatus::Running);
    crate::str_map::lemma_key_pos_absent(s3, "knowledge_graph"@);
    assert(s4.len() == 4);
    assert(s4[3].0 == "knowledge_graph"@);
    let s5 = kv_insert(s4, "maintenance"@, WorkerStatus::Running);
    crate::str_map::lemma_key_pos_absent(s4, "maintenance"@);
    assert(s5.len() == 5);
}

} // verus!
