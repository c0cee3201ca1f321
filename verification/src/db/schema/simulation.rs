use vstd::prelude::*;

verus! {

/// Which stochastic model a simulation replays.
#[derive(Debug, Clone, Copy, PartialEq, Eq, Structural)]
pub enum ModelType {
    Gbm,
    Merton,
    Ou,
    Heston,
}

impl ModelType {
    /// The model that parameters of this kind belong to.
    pub open spec fn spec_from_params(params: ModelParams) -> ModelType {
        match params {
            ModelParams::Gbm => ModelType::Gbm,
            ModelParams::Merton { .. } => ModelType::Merton,
            ModelParams::Ou { .. } => ModelType::Ou,
            ModelParams::Heston { .. } => ModelType::Heston,
        }
    }

    /// Reads the model off the kind of the parameters (see
    /// `spec_from_params`).
    pub fn from_params(params: &ModelParams) -> (r: ModelType)
        ensures
            r == Self::spec_from_params(*params),
    {
        match params {
            ModelParams::Gbm => ModelType::Gbm,
            ModelParams::Merton { .. } => ModelType::Merton,
            ModelParams::Ou { .. } => ModelType::Ou,
            ModelParams::Heston { .. } => ModelType::Heston,
        }
    }
}

/// The model-specific parameters.  Every number is the bit pattern of an
/// `f64` (see `float_bits`).
#[derive(Debug, Clone, Copy, PartialEq, Eq, Structural)]
pub enum ModelParams {
    Gbm,
    Merton { jump_intensity: u64, jump_mean: u64, jump_volatility: u64 },
    Ou { mean_reversion: u64, reversion_level: u64 },
    Heston {
        initial_variance: u64,
        mean_reversion: u64,
        reversion_level: u64,
        vol_of_vol: u64,
        correlation: u64,
    },
}

/// The parameters frozen into a simulation when it ran.  Every number is the
/// bit pattern of an `f64`.
#[derive(Debug, Clone, Copy, PartialEq, Eq, Structural)]
pub struct SimulationParams {
    pub initial_price: u64,
    pub drift: u64,
    pub volatility: u64,
    pub extra_params: ModelParams,
}

/// A simulation row as the logic reads it: the replay configuration (seed,
/// horizon, steps and the frozen parameters), never the path itself.
#[derive(Debug, Clone, PartialEq, Eq)]
pub struct Simulation {
    pub id: u128,
    pub model_type: ModelType,
    /// How long the simulation runs, in years: the bits of an `f64`.
    pub time_horizon: u64,
    /// The number of ticks of the path.
    pub steps: u32,
    /// The seed of the pseudo-random generator that produced the path.
    pub random_seed: i64,
    pub stock_id: Option<u128>,
    pub parameters: SimulationParams,
    pub created_at: String,
    pub updated_at: String,
}

} // verus!
