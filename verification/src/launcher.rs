//! The process launcher: what to start, and what to do with the result.
//!
//! Starting a process is the host's part. The launcher says what is to be
//! started (`launch_plan`) and, once the host has tried, stores the handle in
//! the registry or reports the failure (`complete_launch`). A session
//! launches once.

use vstd::prelude::*;
use vstd::string::*;
use crate::config::{overlay_of, EnvVar, ServerConfig, ServerConfigView};
use crate::error::{LaunchError, SupervisorError};
use crate::registry::{put_model, take_model, ProcessRegistry};

verus! {

/// What the host is to start.
#[derive(Debug)]
pub struct LaunchPlan {
    /// The name of the bundled executable.
    pub program: String,
    /// Its arguments.
    pub args: Vec<String>,
    /// The variables to set on top of the inherited environment, in turn.
    pub env: Vec<EnvVar>,
}

/// Whether `plan` is the plan for `config`: the bundled `node` executable,
/// running `server.js`, under the environment overlay of the configuration.
pub open spec fn is_plan_for(plan: LaunchPlan, config: ServerConfigView) -> bool {
    &&& plan.program@ == "node"@
    &&& plan.args@.len() == 1
    &&& plan.args@[0]@ == "server.js"@
    &&& overlay_of(plan.env@) == config.env
}

/// The plan for starting the service under `config`.
pub fn launch_plan(config: &ServerConfig) -> (plan: LaunchPlan)
    ensures
        is_plan_for(plan, config@),
{
    let vars = config.env();
    let mut env: Vec<EnvVar> = Vec::new();
    let mut i: usize = 0;
    while i < vars.len()
        invariant
            i <= vars.len(),
            env@ =~= vars@.take(i as int),
        decreases vars.len() - i,
    {
        env.push(EnvVar { key: vars[i].key.clone(), value: vars[i].value.clone() });
        i += 1;
    }
    assert(env@ =~= vars@);
    let mut args: Vec<String> = Vec::new();
    args.push(String::from_str("server.js"));
    LaunchPlan { program: String::from_str("node"), args, env }
}

/// What `complete_launch` does: the slot afterwards, and its result.
///
/// A handle is stored; the result is the handle that it displaced, which is
/// `None` in a session that launches once. A failure leaves the slot as it
/// is and becomes the fatal error of the session.
pub open spec fn complete_launch_model<H>(slot: Option<H>, outcome: Result<H, LaunchError>) -> (
    Option<H>,
    Result<Option<H>, SupervisorError>,
) {
    match outcome {
        Ok(handle) => (put_model(slot, handle).0, Ok(put_model(slot, handle).1)),
        Err(error) => (slot, Err(SupervisorError::Launch(error))),
    }
}

/// Takes the result of the host's attempt to start the service: stores the
/// handle in the registry, or reports why there is none.
pub fn complete_launch<H>(
    registry: &mut ProcessRegistry<H>,
    outcome: Result<H, LaunchError>,
) -> (result: Result<Option<H>, SupervisorError>)
    ensures
        (final(registry)@, result) == complete_launch_model(old(registry)@, outcome),
{
    match outcome {
        Ok(handle) => Ok(registry.put(handle)),
        Err(error) => Err(SupervisorError::Launch(error)),
    }
}

/// A failed launch is fatal and leaves no handle behind: a registry that was
/// empty before is empty afterwards, and a take finds nothing.
pub proof fn lemma_failed_launch_leaves_registry_empty<H>(error: LaunchError)
    ensures
        complete_launch_model::<H>(None, Err(error)).0 is None,
        complete_launch_model::<H>(None, Err(error)).1 == Err::<Option<H>, SupervisorError>(
            SupervisorError::Launch(error),
        ),
        SupervisorError::Launch(error).fatal(),
        take_model(complete_launch_model::<H>(None, Err(error)).0).1 is None,
{
}

/// A handle in the registry means that the launch succeeded: after
/// `complete_launch` on an empty registry, the slot is occupied exactly when
/// the host handed over a handle, and then it holds that handle.
pub proof fn lemma_handle_implies_spawned<H>(outcome: Result<H, LaunchError>)
    ensures
        complete_launch_model::<H>(None, outcome).0 is Some <==> outcome is Ok,
        outcome matches Ok(handle) ==> complete_launch_model::<H>(None, outcome).0 == Some(
            handle,
        ) && complete_launch_model::<H>(None, outcome).1 == Ok::<Option<H>, SupervisorError>(
            None,
        ),
{
}

} // verus!
