//! Where a detached background task runs: on the current Tokio runtime when
//! there is one, else on a helper thread with its own runtime.
use vstd::prelude::*;

verus! {

#[derive(Clone, Copy, Debug, PartialEq, Eq, Structural)]
pub enum DetachedTaskRuntime {
    CurrentTokio,
    HelperThreadTokio,
}

#[derive(Clone, Copy, Debug, PartialEq, Eq)]
pub struct DetachedTaskPlan {
    pub name: &'static str,
    pub runtime: DetachedTaskRuntime,
}

pub fn detached_task_runtime(has_current_runtime: bool) -> (r: DetachedTaskRuntime)
    ensures
        r == (if has_current_runtime {
            DetachedTaskRuntime::CurrentTokio
        } else {
            DetachedTaskRuntime::HelperThreadTokio
        }),
{
    if has_current_runtime {
        DetachedTaskRuntime::CurrentTokio
    } else {
        DetachedTaskRuntime::HelperThreadTokio
    }
}

pub fn detached_task_plan(name: &'static str, has_current_runtime: bool) -> (r: DetachedTaskPlan)
    ensures
        r.name == name,
        r.runtime == (if has_current_runtime {
            DetachedTaskRuntime::CurrentTokio
        } else {
            DetachedTaskRuntime::HelperThreadTokio
        }),
{
    DetachedTaskPlan { name, runtime: detached_task_runtime(has_current_runtime) }
}

} // verus!
