//! The rules of the simulation operations.
use vstd::prelude::*;
use crate::db::schema::simulation::{ModelType, Simulation, SimulationParams};
use crate::engine::{replay_plan, spec_replay_plan, ReplayPlan, MAX_TICKS_STEPS};
use crate::float_bits::{is_nan, is_zero, le_zero, lt_zero, sign_set, spec_le_zero, spec_lt_zero};
use crate::service::RepositoryError;
use crate::status::StatusCode;

verus! {

/// The repository that the simulation operations use.
pub struct SimulationService<R> {
    pub repo: R,
}

impl<R> SimulationService<R> {
    pub fn new(repo: R) -> (r: Self)
        ensures
            r.repo == repo,
    {
        SimulationService { repo }
    }
}

/// The simulation that the repository is asked to record.
#[derive(Debug, Clone, Copy, PartialEq, Eq, Structural)]
pub struct NewSimulation {
    pub model_type: ModelType,
    pub time_horizon: u64,
    pub steps: u32,
    pub random_seed: i64,
    pub stock_id: Option<u128>,
    pub parameters: SimulationParams,
}

/// A simulation is accepted when its horizon is positive, it has at least one
/// step, its start price is positive, its volatility is not negative (a NaN
/// fails none of these comparisons, as in IEEE-754), and the stored model is
/// the one its model-specific parameters belong to.
pub open spec fn simulation_ok(
    model_type: ModelType,
    time_horizon: u64,
    steps: u32,
    parameters: SimulationParams,
) -> bool {
    &&& !spec_le_zero(time_horizon)
    &&& steps != 0
    &&& !spec_le_zero(parameters.initial_price)
    &&& !spec_lt_zero(parameters.volatility)
    &&& model_type == ModelType::spec_from_params(parameters.extra_params)
}

/// Checks a new simulation: 400 when it is not accepted (see
/// `simulation_ok`), else the repository is asked to record it as given.
pub fn create_request(
    model_type: ModelType,
    time_horizon: u64,
    steps: u32,
    random_seed: i64,
    stock_id: Option<u128>,
    parameters: SimulationParams,
) -> (r: Result<NewSimulation, StatusCode>)
    ensures
        simulation_ok(model_type, time_horizon, steps, parameters) ==> r == Ok::<NewSimulation, StatusCode>(
            NewSimulation { model_type, time_horizon, steps, random_seed, stock_id, parameters },
        ),
        !simulation_ok(model_type, time_horizon, steps, parameters) ==> r == Err::<NewSimulation, StatusCode>(
            StatusCode::BAD_REQUEST,
        ),        r is Ok <==> (!spec_le_zero(time_horizon) && steps > 0 && !spec_le_zero(
            parameters.initial_price,
        ) && !spec_lt_zero(parameters.volatility) && model_type == ModelType::spec_from_params(
            parameters.extra_params,
        )),
{
    if le_zero(time_horizon) {
        return Err(StatusCode::BAD_REQUEST);
    }
    if steps == 0 {
        return Err(StatusCode::BAD_REQUEST);
    }
    if le_zero(parameters.initial_price) {
        return Err(StatusCode::BAD_REQUEST);
    }
    if lt_zero(parameters.volatility) {
        return Err(StatusCode::BAD_REQUEST);
    }
    if ModelType::from_params(&parameters.extra_params) != model_type {
        return Err(StatusCode::BAD_REQUEST);
    }
    Ok(NewSimulation { model_type, time_horizon, steps, random_seed, stock_id, parameters })
}

/// Whether a simulation is accepted does not depend on its drift (a falling
/// stock is recorded like a rising one), nor on its seed or stock, which
/// `simulation_ok` does not read: changing the drift of accepted parameters
/// keeps them accepted, and of refused ones keeps them refused.
pub proof fn lemma_acceptance_ignores_drift(
    model_type: ModelType,
    time_horizon: u64,
    steps: u32,
    parameters: SimulationParams,
    drift: u64,
)
    ensures
        simulation_ok(model_type, time_horizon, steps, parameters) == simulation_ok(
            model_type,
            time_horizon,
            steps,
            SimulationParams {
                initial_price: parameters.initial_price,
                drift,
                volatility: parameters.volatility,
                extra_params: parameters.extra_params,
            },
        ),
{
}

/// A simulation with a positive horizon, at least one step, a positive start
/// price, a non-negative volatility and parameters of its own model is
/// accepted, whatever its drift.
pub proof fn lemma_valid_simulation_is_accepted(
    model_type: ModelType,
    time_horizon: u64,
    steps: u32,
    parameters: SimulationParams,
)
    requires
        !is_nan(time_horizon) && !is_zero(time_horizon) && !sign_set(time_horizon),
        steps >= 1,
        !is_nan(parameters.initial_price) && !is_zero(parameters.initial_price) && !sign_set(
            parameters.initial_price,
        ),
        is_nan(parameters.volatility) || is_zero(parameters.volatility) || !sign_set(
            parameters.volatility,
        ),
        model_type == ModelType::spec_from_params(parameters.extra_params),
    ensures
        simulation_ok(model_type, time_horizon, steps, parameters),
{
}

/// The answer to a recording: the stored simulation, or 500.
pub fn create_result(created: Result<Simulation, RepositoryError>) -> (r: Result<Simulation, StatusCode>)
    ensures
        match created {
            Ok(s) => r == Ok::<Simulation, StatusCode>(s),
            Err(_) => r == Err::<Simulation, StatusCode>(StatusCode::INTERNAL_SERVER_ERROR),
        },
{
    match created {
        Ok(s) => Ok(s),
        Err(_) => Err(StatusCode::INTERNAL_SERVER_ERROR),
    }
}

/// The answer to a lookup by id: the simulation, or 404.
pub fn get_result(found: Result<Simulation, RepositoryError>) -> (r: Result<Simulation, StatusCode>)
    ensures
        match found {
            Ok(s) => r == Ok::<Simulation, StatusCode>(s),
            Err(_) => r == Err::<Simulation, StatusCode>(StatusCode::NOT_FOUND),
        },
{
    match found {
        Ok(s) => Ok(s),
        Err(_) => Err(StatusCode::NOT_FOUND),
    }
}

/// The answer to a listing (all, by model, or of one stock): the
/// simulations, or 500.
pub fn list_result(listed: Result<Vec<Simulation>, RepositoryError>) -> (r: Result<
    Vec<Simulation>,
    StatusCode,
>)
    ensures
        match listed {
            Ok(v) => r == Ok::<Vec<Simulation>, StatusCode>(v),
            Err(_) => r == Err::<Vec<Simulation>, StatusCode>(StatusCode::INTERNAL_SERVER_ERROR),
        },
{
    match listed {
        Ok(v) => Ok(v),
        Err(_) => Err(StatusCode::INTERNAL_SERVER_ERROR),
    }
}

/// The answer to a deletion: done, 404 when there was no such simulation to
/// delete, or 500 when the store failed.
pub fn delete_result(deleted: Result<(), RepositoryError>) -> (r: Result<(), StatusCode>)
    ensures
        match deleted {
            Ok(_) => r is Ok,
            Err(RepositoryError::NotFound) => r == Err::<(), StatusCode>(StatusCode::NOT_FOUND),
            Err(RepositoryError::Failed) => r == Err::<(), StatusCode>(StatusCode::INTERNAL_SERVER_ERROR),
        },
{
    match deleted {
        Ok(_) => Ok(()),
        Err(RepositoryError::NotFound) => Err(StatusCode::NOT_FOUND),
        Err(RepositoryError::Failed) => Err(StatusCode::INTERNAL_SERVER_ERROR),
    }
}

/// A simulation to replay, with the plan of its replay.
pub struct TicksRequest {
    pub simulation: Simulation,
    pub plan: ReplayPlan,
}

/// Decides the replay of a looked-up simulation: 404 when it was not found,
/// 413 when its path would have more than `MAX_TICKS_STEPS` steps, else the
/// simulation with the plan of its replay.
pub fn ticks_request(found: Result<Simulation, RepositoryError>) -> (r: Result<TicksRequest, StatusCode>)
    ensures
        match found {
            Err(_) => r matches Err(e) && e == StatusCode::NOT_FOUND,
            Ok(sim) => if sim.steps > MAX_TICKS_STEPS {
                r matches Err(e) && e == StatusCode::PAYLOAD_TOO_LARGE
            } else {
                r matches Ok(t) && t.simulation == sim && t.plan == spec_replay_plan(sim)
            },
        },
{
    match found {
        Err(_) => Err(StatusCode::NOT_FOUND),
        Ok(sim) => {
            if sim.steps > MAX_TICKS_STEPS {
                Err(StatusCode::PAYLOAD_TOO_LARGE)
            } else {
                let plan = replay_plan(&sim);
                Ok(TicksRequest { simulation: sim, plan })
            }
        },
    }
}

} // verus!
