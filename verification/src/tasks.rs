//! The configuration of the background tasks.

use vstd::prelude::*;
use crate::config::{GlobalConfig, OnceConfig, TaskConfig};

verus! {

/// Sets the configuration of the background tasks, once.
pub fn init(cell: &mut OnceConfig<TaskConfig>, task: TaskConfig) -> (done: Result<(), String>)
    ensures
        old(cell).value() is None ==> done is Ok && final(cell).value() == Some(task),
        old(cell).value() is Some ==> final(cell).value() == old(cell).value() && (done matches Err(
            e,
        ) && e@ == "Config already initialized"@),
{
    TaskConfig::init_global(cell, task)
}

} // verus!
