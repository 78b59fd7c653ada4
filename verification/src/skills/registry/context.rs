//! What a skill is executed with: the task, parameters, working memory,
//! knowledge to draw on and a time limit.

use vstd::prelude::*;
use crate::json::JsonValue;
use crate::skills::registry::texts;
use crate::str_map::{kv_insert, StrMap};

verus! {

/// Context for skill execution.
#[derive(Debug)]
pub struct ExecutionContext {
    pub task: String,
    pub parameters: StrMap<JsonValue>,
    pub working_memory: StrMap<JsonValue>,
    pub knowledge_context: Vec<String>,
    pub time_limit_secs: Option<u64>,
}

impl ExecutionContext {
    /// A context for a task, with nothing else set.
    pub fn new(task: String) -> (c: Self)
        ensures
            c.task == task,
            c.parameters@.len() == 0,
            c.working_memory@.len() == 0,
            c.knowledge_context@.len() == 0,
            c.time_limit_secs is None,
    {
        ExecutionContext {
            task,
            parameters: StrMap::new(),
            working_memory: StrMap::new(),
            knowledge_context: Vec::new(),
            time_limit_secs: None,
        }
    }

    /// Set a parameter, replacing an earlier value under the same key.
    pub fn with_param(self, key: String, value: JsonValue) -> (c: Self)
        ensures
            c.parameters@ == kv_insert(self.parameters@, key@, value),
            c.task == self.task,
            c.working_memory@ == self.working_memory@,
            c.knowledge_context == self.knowledge_context,
            c.time_limit_secs == self.time_limit_secs,
    {
        let mut c = self;
        c.parameters.insert(key, value);
        c
    }

    /// Put a value in working memory, replacing an earlier one under the
    /// same key.
    pub fn with_memory(self, key: String, value: JsonValue) -> (c: Self)
        ensures
            c.working_memory@ == kv_insert(self.working_memory@, key@, value),
            c.task == self.task,
            c.parameters@ == self.parameters@,
            c.knowledge_context == self.knowledge_context,
            c.time_limit_secs == self.time_limit_secs,
    {
        let mut c = self;
        c.working_memory.insert(key, value);
        c
    }

    /// Set the knowledge to draw on, by identifier.
    pub fn with_knowledge_context(self, knowledge_ids: Vec<String>) -> (c: Self)
        ensures
            texts(c.knowledge_context@) == texts(knowledge_ids@),
            c.task == self.task,
            c.parameters@ == self.parameters@,
            c.working_memory@ == self.working_memory@,
            c.time_limit_secs == self.time_limit_secs,
    {
        let mut c = self;
        c.knowledge_context = knowledge_ids;
        c
    }

    /// Set the time limit, in seconds.
    pub fn with_time_limit(self, secs: u64) -> (c: Self)
        ensures
            c.time_limit_secs == Some(secs),
            c.task == self.task,
            c.parameters@ == self.parameters@,
            c.working_memory@ == self.working_memory@,
            c.knowledge_context == self.knowledge_context,
    {
        let mut c = self;
        c.time_limit_secs = Some(secs);
        c
    }
}

} // verus!
