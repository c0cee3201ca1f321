use vstd::prelude::*;
use crate::db::schema::simulation::{ModelParams, ModelType, Simulation, SimulationParams};

verus! {

/// A request to record a simulation.  Every number but `steps` and the seed
/// is the bit pattern of an `f64`.
#[derive(Debug, Clone, Copy, PartialEq, Eq, Structural)]
pub struct CreateSimulationPayload {
    pub model_type: ModelType,
    pub time_horizon: u64,
    pub steps: u32,
    pub random_seed: i64,
    pub stock_id: Option<u128>,
    pub initial_price: u64,
    pub drift: u64,
    pub volatility: u64,
    pub extra_params: ModelParams,
}

/// The parameters of a simulation as the API carries them.
#[derive(Debug, Clone, Copy, PartialEq, Eq, Structural)]
pub struct SimulationParamsPayload {
    pub initial_price: u64,
    pub drift: u64,
    pub volatility: u64,
    pub extra_params: ModelParams,
}

pub open spec fn params_of_payload(p: SimulationParamsPayload) -> SimulationParams {
    SimulationParams {
        initial_price: p.initial_price,
        drift: p.drift,
        volatility: p.volatility,
        extra_params: p.extra_params,
    }
}

impl From<SimulationParamsPayload> for SimulationParams {
    fn from(p: SimulationParamsPayload) -> (r: SimulationParams) {
        SimulationParams {
            initial_price: p.initial_price,
            drift: p.drift,
            volatility: p.volatility,
            extra_params: p.extra_params,
        }
    }
}

impl vstd::std_specs::convert::FromSpecImpl<SimulationParamsPayload> for SimulationParams {
    open spec fn obeys_from_spec() -> bool {
        true
    }

    open spec fn from_spec(p: SimulationParamsPayload) -> SimulationParams {
        params_of_payload(p)
    }
}

impl CreateSimulationPayload {
    /// The parameters that the request freezes into the simulation.
    pub fn parameters(&self) -> (r: SimulationParams)
        ensures
            r == (SimulationParams {
                initial_price: self.initial_price,
                drift: self.drift,
                volatility: self.volatility,
                extra_params: self.extra_params,
            }),
    {
        SimulationParams::from(
            SimulationParamsPayload {
                initial_price: self.initial_price,
                drift: self.drift,
                volatility: self.volatility,
                extra_params: self.extra_params,
            },
        )
    }
}

/// Filters and paging of a simulation listing.
#[derive(Debug, Clone, Copy, PartialEq, Eq, Structural)]
pub struct SimulationQueryFilters {
    pub model_type: Option<ModelType>,
    pub limit: Option<u32>,
    pub offset: Option<u32>,
}

/// A simulation as the API answers with it.
#[derive(Debug, Clone, PartialEq, Eq)]
pub struct SimulationResponse {
    pub id: u128,
    pub model_type: ModelType,
    pub time_horizon: u64,
    pub steps: u32,
    pub random_seed: i64,
    pub stock_id: Option<u128>,
    pub parameters: SimulationParamsPayload,
    pub created_at: String,
    pub updated_at: String,
}

/// The answer for a simulation: all its fields, the parameters as sent.
pub open spec fn simulation_response_of(sim: Simulation) -> SimulationResponse {
    SimulationResponse {
        id: sim.id,
        model_type: sim.model_type,
        time_horizon: sim.time_horizon,
        steps: sim.steps,
        random_seed: sim.random_seed,
        stock_id: sim.stock_id,
        parameters: SimulationParamsPayload {
            initial_price: sim.parameters.initial_price,
            drift: sim.parameters.drift,
            volatility: sim.parameters.volatility,
            extra_params: sim.parameters.extra_params,
        },
        created_at: sim.created_at,
        updated_at: sim.updated_at,
    }
}

impl From<Simulation> for SimulationResponse {
    fn from(sim: Simulation) -> (r: SimulationResponse) {
        let parameters = SimulationParamsPayload {
            initial_price: sim.parameters.initial_price,
            drift: sim.parameters.drift,
            volatility: sim.parameters.volatility,
            extra_params: sim.parameters.extra_params,
        };
        SimulationResponse {
            id: sim.id,
            model_type: sim.model_type,
            time_horizon: sim.time_horizon,
            steps: sim.steps,
            random_seed: sim.random_seed,
            stock_id: sim.stock_id,
            parameters,
            created_at: sim.created_at,
            updated_at: sim.updated_at,
        }
    }
}

impl vstd::std_specs::convert::FromSpecImpl<Simulation> for SimulationResponse {
    open spec fn obeys_from_spec() -> bool {
        true
    }

    open spec fn from_spec(sim: Simulation) -> SimulationResponse {
        simulation_response_of(sim)
    }
}

/// The answer for a simulation reports the stored record field for field:
/// its id, model, horizon, steps, seed and stock, its timestamps, and each
/// number of its frozen parameters in the field of the same name; reading the
/// reported parameters back gives the stored ones.
pub proof fn lemma_response_reports_the_record(sim: Simulation)
    ensures
        simulation_response_of(sim).id == sim.id,
        simulation_response_of(sim).model_type == sim.model_type,
        simulation_response_of(sim).time_horizon == sim.time_horizon,
        simulation_response_of(sim).steps == sim.steps,
        simulation_response_of(sim).random_seed == sim.random_seed,
        simulation_response_of(sim).stock_id == sim.stock_id,
        simulation_response_of(sim).created_at == sim.created_at,
        simulation_response_of(sim).updated_at == sim.updated_at,
        simulation_response_of(sim).parameters.initial_price == sim.parameters.initial_price,
        simulation_response_of(sim).parameters.drift == sim.parameters.drift,
        simulation_response_of(sim).parameters.volatility == sim.parameters.volatility,
        simulation_response_of(sim).parameters.extra_params == sim.parameters.extra_params,
        params_of_payload(simulation_response_of(sim).parameters) == sim.parameters,
{
}

/// Parameters sent with a request are frozen as sent: each number lands in
/// the field of the same name.
pub proof fn lemma_payload_parameters_are_kept(p: SimulationParamsPayload)
    ensures
        params_of_payload(p).initial_price == p.initial_price,
        params_of_payload(p).drift == p.drift,
        params_of_payload(p).volatility == p.volatility,
        params_of_payload(p).extra_params == p.extra_params,
{
}

} // verus!
