//! Deterministic replay of a stored simulation.
//!
//! A simulation row stores only its replay configuration (seed, horizon,
//! steps and the parameters frozen at run time), never the path.  The
//! library decides which stochastic model replays it and with which numbers;
//! the numeric integration of the path runs at the edge.
use vstd::prelude::*;
use crate::db::schema::simulation::{ModelParams, ModelType, Simulation, SimulationParams};

verus! {

/// The most steps that one replay may produce.
pub const MAX_TICKS_STEPS: u32 = 100_000;

/// Geometric Brownian motion.  All numbers are `f64` bit patterns.
#[derive(Debug, Clone, Copy, PartialEq, Eq, Structural)]
pub struct GbmStrategy {
    pub drift: u64,
    pub volatility: u64,
}

/// Merton jump diffusion; `jump_volatility` is a volatility (its square is
/// the jump variance).  All numbers are `f64` bit patterns.
#[derive(Debug, Clone, Copy, PartialEq, Eq, Structural)]
pub struct MertonStrategy {
    pub drift: u64,
    pub volatility: u64,
    pub jump_intensity: u64,
    pub jump_mean: u64,
    pub jump_volatility: u64,
}

/// Ornstein-Uhlenbeck, mean-reverting; the base drift is not used.  All
/// numbers are `f64` bit patterns.
#[derive(Debug, Clone, Copy, PartialEq, Eq, Structural)]
pub struct OuStrategy {
    pub volatility: u64,
    pub mean_reversion: u64,
    pub reversion_level: u64,
}

/// Heston stochastic volatility.  All numbers are `f64` bit patterns.
#[derive(Debug, Clone, Copy, PartialEq, Eq, Structural)]
pub struct HestonStrategy {
    pub drift: u64,
    pub initial_variance: u64,
    pub mean_reversion: u64,
    pub reversion_level: u64,
    pub vol_of_vol: u64,
    pub correlation: u64,
}

/// The model that replays a simulation, with its numbers.
#[derive(Debug, Clone, Copy, PartialEq, Eq, Structural)]
pub enum Strategy {
    Gbm(GbmStrategy),
    Merton(MertonStrategy),
    Ou(OuStrategy),
    Heston(HestonStrategy),
}

/// The strategy for a stored model and its frozen parameters: the model's own
/// when the parameters are of that model, and GBM with the base drift and
/// volatility when the pair does not agree (so that older rows still
/// replay).
pub open spec fn spec_strategy_for(model_type: ModelType, params: SimulationParams) -> Strategy {
    match (model_type, params.extra_params) {
        (ModelType::Merton, ModelParams::Merton { jump_intensity, jump_mean, jump_volatility }) => {
            Strategy::Merton(
                MertonStrategy {
                    drift: params.drift,
                    volatility: params.volatility,
                    jump_intensity,
                    jump_mean,
                    jump_volatility,
                },
            )
        },
        (ModelType::Ou, ModelParams::Ou { mean_reversion, reversion_level }) => Strategy::Ou(
            OuStrategy { volatility: params.volatility, mean_reversion, reversion_level },
        ),
        (
            ModelType::Heston,
            ModelParams::Heston {
                initial_variance,
                mean_reversion,
                reversion_level,
                vol_of_vol,
                correlation,
            },
        ) => Strategy::Heston(
            HestonStrategy {
                drift: params.drift,
                initial_variance,
                mean_reversion,
                reversion_level,
                vol_of_vol,
                correlation,
            },
        ),
        _ => Strategy::Gbm(GbmStrategy { drift: params.drift, volatility: params.volatility }),
    }
}

/// Builds the strategy for a stored model and its frozen parameters (see
/// `spec_strategy_for`).
pub fn strategy_for(model_type: ModelType, params: &SimulationParams) -> (s: Strategy)
    ensures
        s == spec_strategy_for(model_type, *params),
{
    match (model_type, params.extra_params) {
        (ModelType::Merton, ModelParams::Merton { jump_intensity, jump_mean, jump_volatility }) => {
            Strategy::Merton(
                MertonStrategy {
                    drift: params.drift,
                    volatility: params.volatility,
                    jump_intensity,
                    jump_mean,
                    jump_volatility,
                },
            )
        },
        (ModelType::Ou, ModelParams::Ou { mean_reversion, reversion_level }) => Strategy::Ou(
            OuStrategy { volatility: params.volatility, mean_reversion, reversion_level },
        ),
        (
            ModelType::Heston,
            ModelParams::Heston {
                initial_variance,
                mean_reversion,
                reversion_level,
                vol_of_vol,
                correlation,
            },
        ) => Strategy::Heston(
            HestonStrategy {
                drift: params.drift,
                initial_variance,
                mean_reversion,
                reversion_level,
                vol_of_vol,
                correlation,
            },
        ),
        _ => Strategy::Gbm(GbmStrategy { drift: params.drift, volatility: params.volatility }),
    }
}

/// The seed of the generator for a stored seed: its two's complement bits,
/// so that negative seeds replay too.
pub open spec fn spec_seed(random_seed: i64) -> u64 {
    random_seed as u64
}

/// Reads a stored seed as the generator's seed (see `spec_seed`).
pub fn generator_seed(random_seed: i64) -> (r: u64)
    ensures
        r == spec_seed(random_seed),
{
    random_seed as u64
}

/// Everything one replay runs on: the strategy, the start price, the horizon
/// (years) and the number of steps, and the generator's seed.  The path has
/// `steps + 1` points, the first being the start price.
#[derive(Debug, Clone, Copy, PartialEq, Eq, Structural)]
pub struct ReplayPlan {
    pub strategy: Strategy,
    pub initial_price: u64,
    pub time_horizon: u64,
    pub steps: u32,
    pub seed: u64,
}

/// The replay of a simulation: read from its model, frozen parameters,
/// horizon, steps and seed, and from nothing else.
pub open spec fn spec_replay_plan(sim: Simulation) -> ReplayPlan {
    ReplayPlan {
        strategy: spec_strategy_for(sim.model_type, sim.parameters),
        initial_price: sim.parameters.initial_price,
        time_horizon: sim.time_horizon,
        steps: sim.steps,
        seed: spec_seed(sim.random_seed),
    }
}

/// Plans the replay of a stored simulation (see `spec_replay_plan`).
pub fn replay_plan(sim: &Simulation) -> (p: ReplayPlan)
    ensures
        p == spec_replay_plan(*sim),
{
    ReplayPlan {
        strategy: strategy_for(sim.model_type, &sim.parameters),
        initial_price: sim.parameters.initial_price,
        time_horizon: sim.time_horizon,
        steps: sim.steps,
        seed: generator_seed(sim.random_seed),
    }
}

/// Replay is determined by the stored configuration: two simulations with the
/// same model, parameters, horizon, steps and seed replay the same way, what
/// ever their ids, stocks and timestamps.
pub proof fn lemma_replay_depends_only_on_config(a: Simulation, b: Simulation)
    requires
        a.model_type == b.model_type,
        a.parameters == b.parameters,
        a.time_horizon == b.time_horizon,
        a.steps == b.steps,
        a.random_seed == b.random_seed,
    ensures
        spec_replay_plan(a) == spec_replay_plan(b),
{
}

/// Distinct stored seeds give distinct generator seeds.
pub proof fn lemma_seed_is_injective(a: i64, b: i64)
    requires
        a != b,
    ensures
        spec_seed(a) != spec_seed(b),
{
    assert(a != b ==> (a as u64) != (b as u64)) by (bit_vector);
}

/// The stored model is honoured exactly when its parameters are of that
/// model: the strategy is of the stored model's kind when the kinds agree, and
/// GBM otherwise.
pub proof fn lemma_strategy_kind(model_type: ModelType, params: SimulationParams)
    ensures
        spec_strategy_for(model_type, params) is Merton <==> (model_type == ModelType::Merton
            && params.extra_params is Merton),
        spec_strategy_for(model_type, params) is Ou <==> (model_type == ModelType::Ou
            && params.extra_params is Ou),
        spec_strategy_for(model_type, params) is Heston <==> (model_type == ModelType::Heston
            && params.extra_params is Heston),
        spec_strategy_for(model_type, params) is Gbm <==> !((model_type == ModelType::Merton
            && params.extra_params is Merton) || (model_type == ModelType::Ou
            && params.extra_params is Ou) || (model_type == ModelType::Heston
            && params.extra_params is Heston)),
{
}

/// Parameters replay with their own model when the stored model is the one
/// they belong to: the strategy then never falls back to GBM, unless the
/// parameters are GBM's.
pub proof fn lemma_matching_model_is_honoured(params: SimulationParams)
    ensures
        match (spec_strategy_for(ModelType::spec_from_params(params.extra_params), params), params.extra_params) {
            (Strategy::Gbm(_), ModelParams::Gbm) => true,
            (Strategy::Merton(_), ModelParams::Merton { .. }) => true,
            (Strategy::Ou(_), ModelParams::Ou { .. }) => true,
            (Strategy::Heston(_), ModelParams::Heston { .. }) => true,
            _ => false,
        },
{
}

/// The strategy carries the stored numbers unchanged, each into the field of
/// the same name: the base drift and volatility where the model uses them,
/// and every model-specific number of the stored parameters.  (Which model is
/// chosen is `lemma_strategy_kind`.)
pub proof fn lemma_strategy_carries_parameters(model_type: ModelType, params: SimulationParams)
    ensures
        spec_strategy_for(model_type, params) matches Strategy::Gbm(g) ==> g.drift == params.drift
            && g.volatility == params.volatility,
        spec_strategy_for(model_type, params) matches Strategy::Merton(m) ==> m.drift
            == params.drift && m.volatility == params.volatility && (params.extra_params matches
            ModelParams::Merton { jump_intensity, jump_mean, jump_volatility }
            && m.jump_intensity == jump_intensity && m.jump_mean == jump_mean && m.jump_volatility
            == jump_volatility),
        spec_strategy_for(model_type, params) matches Strategy::Ou(o) ==> o.volatility
            == params.volatility && (params.extra_params matches ModelParams::Ou {
            mean_reversion,
            reversion_level,
        } && o.mean_reversion == mean_reversion && o.reversion_level == reversion_level),
        spec_strategy_for(model_type, params) matches Strategy::Heston(h) ==> h.drift
            == params.drift && (params.extra_params matches ModelParams::Heston {
            initial_variance,
            mean_reversion,
            reversion_level,
            vol_of_vol,
            correlation,
        } && h.initial_variance == initial_variance && h.mean_reversion == mean_reversion
            && h.reversion_level == reversion_level && h.vol_of_vol == vol_of_vol && h.correlation
            == correlation),
{
}

} // verus!
