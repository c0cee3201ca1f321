//! The profile overview: a user's profile with every stock of it and, for each
//! stock, its latest simulations.
//!
//! Reading it takes one repository query after another, so the logic is a
//! state machine: `ProfileAssembly::start` names the first query, and each
//! reply is handed to `resume`, which names the next query or finishes.
use vstd::prelude::*;
use crate::db::schema::profile::Profile;
use crate::db::schema::simulation::{ModelParams, ModelType, Simulation};
use crate::db::schema::stock::Stock;
use crate::float_bits::ZERO_BITS;
use crate::service::RepositoryError;
use crate::status::StatusCode;

verus! {

/// How many simulations the overview lists per stock.
pub const SIMULATIONS_PER_STOCK: u32 = 10;

/// The repositories that the overview reads from.
pub struct ProfileService<P, S, St> {
    pub profile_repo: P,
    pub simulation_repo: S,
    pub stock_repo: St,
}

impl<P, S, St> ProfileService<P, S, St> {
    pub fn new(profile_repo: P, simulation_repo: S, stock_repo: St) -> (r: Self)
        ensures
            r.profile_repo == profile_repo,
            r.simulation_repo == simulation_repo,
            r.stock_repo == stock_repo,
    {
        ProfileService { profile_repo, simulation_repo, stock_repo }
    }
}

/// A simulation as the overview lists it: its replay configuration without
/// the parameters.
#[derive(Debug, Clone, PartialEq, Eq)]
pub struct SimulationBasic {
    pub id: u128,
    pub model_type: ModelType,
    pub time_horizon: u64,
    pub steps: u32,
    pub random_seed: i64,
    pub created_at: String,
    pub updated_at: String,
}

impl From<Simulation> for SimulationBasic {
    fn from(sim: Simulation) -> (r: SimulationBasic) {
        SimulationBasic {
            id: sim.id,
            model_type: sim.model_type,
            time_horizon: sim.time_horizon,
            steps: sim.steps,
            random_seed: sim.random_seed,
            created_at: sim.created_at,
            updated_at: sim.updated_at,
        }
    }
}

impl vstd::std_specs::convert::FromSpecImpl<Simulation> for SimulationBasic {
    open spec fn obeys_from_spec() -> bool {
        true
    }

    open spec fn from_spec(sim: Simulation) -> SimulationBasic {
        basic_of(sim)
    }
}

/// The overview line of a simulation.
pub open spec fn basic_of(sim: Simulation) -> SimulationBasic {
    SimulationBasic {
        id: sim.id,
        model_type: sim.model_type,
        time_horizon: sim.time_horizon,
        steps: sim.steps,
        random_seed: sim.random_seed,
        created_at: sim.created_at,
        updated_at: sim.updated_at,
    }
}

/// An overview line carries the simulation's own fields: its id, model,
/// horizon, steps, seed and timestamps.
pub proof fn lemma_overview_line_reports_the_simulation(sim: Simulation)
    ensures
        basic_of(sim).id == sim.id,
        basic_of(sim).model_type == sim.model_type,
        basic_of(sim).time_horizon == sim.time_horizon,
        basic_of(sim).steps == sim.steps,
        basic_of(sim).random_seed == sim.random_seed,
        basic_of(sim).created_at == sim.created_at,
        basic_of(sim).updated_at == sim.updated_at,
{
}

impl SimulationBasic {
    /// The overview line of a simulation that stays with its owner.
    pub fn of(sim: &Simulation) -> (r: SimulationBasic)
        ensures
            r == basic_of(*sim),
            r.id == sim.id,
            r.model_type == sim.model_type,
            r.time_horizon == sim.time_horizon,
            r.steps == sim.steps,
            r.random_seed == sim.random_seed,
            r.created_at == sim.created_at,
            r.updated_at == sim.updated_at,
    {
        SimulationBasic {
            id: sim.id,
            model_type: sim.model_type,
            time_horizon: sim.time_horizon,
            steps: sim.steps,
            random_seed: sim.random_seed,
            created_at: sim.created_at.clone(),
            updated_at: sim.updated_at.clone(),
        }
    }
}

/// A stock in the overview, with the model of its first listed simulation and
/// the simulations themselves.
#[derive(Debug, Clone, PartialEq, Eq)]
pub struct StockWithSimulations {
    pub id: u128,
    pub ticker: String,
    pub name: String,
    pub model_type: ModelType,
    pub initial_price: u64,
    pub drift: u64,
    pub volatility: u64,
    pub extra_params: ModelParams,
    pub simulations: Vec<SimulationBasic>,
}

/// The overview of a profile.
#[derive(Debug, Clone, PartialEq, Eq)]
pub struct ProfileWithData {
    pub id: u128,
    /// The owner, or the nil UUID (0) for a profile without one.
    pub user_id: u128,
    pub created_at: String,
    pub updated_at: String,
    pub stocks: Vec<StockWithSimulations>,
}

/// `e` is the overview entry of `stock` whose listed simulations are `sims`:
/// the stock's identity, the model of the first simulation (GBM with all
/// numbers zero when there is none), and one line per simulation, in order.
pub open spec fn entry_matches(e: StockWithSimulations, stock: Stock, sims: Seq<Simulation>) -> bool {
    &&& e.id == stock.id
    &&& e.ticker == stock.ticker
    &&& e.name == stock.name
    &&& if sims.len() > 0 {
        &&& e.model_type == sims[0].model_type
        &&& e.initial_price == sims[0].parameters.initial_price
        &&& e.drift == sims[0].parameters.drift
        &&& e.volatility == sims[0].parameters.volatility
        &&& e.extra_params == sims[0].parameters.extra_params
    } else {
        &&& e.model_type == ModelType::Gbm
        &&& e.initial_price == ZERO_BITS
        &&& e.drift == ZERO_BITS
        &&& e.volatility == ZERO_BITS
        &&& e.extra_params == ModelParams::Gbm
    }
    &&& e.simulations@ == sims.map_values(|s: Simulation| basic_of(s))
}

/// `d` is the overview of `profile`, whose stocks are `stocks` and whose
/// stock `i` lists the simulations `sims[i]`.
pub open spec fn assembled(
    d: ProfileWithData,
    profile: Profile,
    stocks: Seq<Stock>,
    sims: Seq<Seq<Simulation>>,
) -> bool {
    &&& d.id == profile.id
    &&& d.user_id == match profile.user_id {
        Some(u) => u,
        None => 0,
    }
    &&& d.created_at == profile.created_at
    &&& d.updated_at == profile.updated_at
    &&& sims.len() == stocks.len()
    &&& d.stocks@.len() == stocks.len()
    &&& forall|i: int| 0 <= i < stocks.len() ==> entry_matches(#[trigger] d.stocks@[i], stocks[i], sims[i])
}

/// Each line of an overview entry carries its simulation's own fields, in the
/// order of the listing.
pub proof fn lemma_entry_lines_report_the_simulations(
    e: StockWithSimulations,
    stock: Stock,
    sims: Seq<Simulation>,
)
    requires
        entry_matches(e, stock, sims),
    ensures
        e.simulations@.len() == sims.len(),
        forall|i: int| 0 <= i < sims.len() ==> {
            &&& (#[trigger] e.simulations@[i]).id == sims[i].id
            &&& e.simulations@[i].model_type == sims[i].model_type
            &&& e.simulations@[i].time_horizon == sims[i].time_horizon
            &&& e.simulations@[i].steps == sims[i].steps
            &&& e.simulations@[i].random_seed == sims[i].random_seed
        },
{
}

/// Builds the overview entry of a stock from its listed simulations.
pub fn stock_entry(stock: &Stock, sims: &Vec<Simulation>) -> (e: StockWithSimulations)
    ensures
        entry_matches(e, *stock, sims@),
{
    let mut lines: Vec<SimulationBasic> = Vec::new();
    let n = sims.len();
    for i in 0..n
        invariant
            n == sims@.len(),
            lines@ == sims@.subrange(0, i as int).map_values(|s: Simulation| basic_of(s)),
    {
        lines.push(SimulationBasic::of(&sims[i]));
        assert(sims@.subrange(0, i + 1).map_values(|s: Simulation| basic_of(s)) =~= sims@.subrange(
            0,
            i as int,
        ).map_values(|s: Simulation| basic_of(s)).push(basic_of(sims@[i as int])));
    }
    assert(sims@.subrange(0, n as int) =~= sims@);
    if n > 0 {
        let first = &sims[0];
        StockWithSimulations {
            id: stock.id,
            ticker: stock.ticker.clone(),
            name: stock.name.clone(),
            model_type: first.model_type,
            initial_price: first.parameters.initial_price,
            drift: first.parameters.drift,
            volatility: first.parameters.volatility,
            extra_params: first.parameters.extra_params,
            simulations: lines,
        }
    } else {
        StockWithSimulations {
            id: stock.id,
            ticker: stock.ticker.clone(),
            name: stock.name.clone(),
            model_type: ModelType::Gbm,
            initial_price: ZERO_BITS,
            drift: ZERO_BITS,
            volatility: ZERO_BITS,
            extra_params: ModelParams::Gbm,
            simulations: lines,
        }
    }
}

/// The repository query that the overview needs next.
#[derive(Debug, Clone, Copy, PartialEq, Eq, Structural)]
pub enum ProfileQuery {
    /// The profile owned by the user.
    FindProfileByUser { user_id: u128 },
    /// The stocks of the profile.
    ListStocks { profile_id: u128, limit: Option<u32>, offset: Option<u32> },
    /// The simulations of one stock.
    ListSimulations { stock_id: u128, limit: Option<u32>, offset: Option<u32> },
}

/// The repository's answer to a `ProfileQuery`, of the same kind.
pub enum ProfileReply {
    Profile(Result<Profile, RepositoryError>),
    Stocks(Result<Vec<Stock>, RepositoryError>),
    Simulations(Result<Vec<Simulation>, RepositoryError>),
}

/// Where the overview stands.
#[derive(Debug, Clone, Copy, PartialEq, Eq, Structural)]
pub enum ProfilePhase {
    AwaitProfile,
    AwaitStocks,
    AwaitSimulations,
}

/// The overview being read.  `stocks` are the profile's stocks, and `entries`
/// the finished entries of the first ones; `replies` are the simulation lists
/// received so far, one per finished entry.
pub struct ProfileAssembly {
    phase: ProfilePhase,
    profile: Option<Profile>,
    stocks: Vec<Stock>,
    entries: Vec<StockWithSimulations>,
    replies: Ghost<Seq<Seq<Simulation>>>,
}

/// What happens next: another query for the repository, with the machine
/// that expects its reply, or the answer of the overview.
pub enum ProfileStep {
    Query { next: ProfileAssembly, query: ProfileQuery },
    Finished(Result<ProfileWithData, StatusCode>),
}

impl ProfileAssembly {
    pub closed spec fn phase(&self) -> ProfilePhase {
        self.phase
    }

    /// The profile, once found.
    pub closed spec fn profile(&self) -> Profile {
        self.profile.unwrap()
    }

    /// The profile's stocks, once listed.
    pub closed spec fn stocks(&self) -> Seq<Stock> {
        self.stocks@
    }

    /// The simulation lists received so far, one per stock in order.
    pub closed spec fn replies(&self) -> Seq<Seq<Simulation>> {
        self.replies@
    }

    /// The machine is consistent with the replies it has taken.
    pub closed spec fn inv(&self) -> bool {
        match self.phase {
            ProfilePhase::AwaitProfile => {
                &&& self.profile is None
                &&& self.stocks@.len() == 0
                &&& self.entries@.len() == 0
                &&& self.replies@.len() == 0
            },
            ProfilePhase::AwaitStocks => {
                &&& self.profile is Some
                &&& self.stocks@.len() == 0
                &&& self.entries@.len() == 0
                &&& self.replies@.len() == 0
            },
            ProfilePhase::AwaitSimulations => {
                &&& self.profile is Some
                &&& self.entries@.len() == self.replies@.len()
                &&& self.entries@.len() < self.stocks@.len()
                &&& forall|i: int|
                    0 <= i < self.entries@.len() ==> entry_matches(
                        #[trigger] self.entries@[i],
                        self.stocks@[i],
                        self.replies@[i],
                    )
            },
        }
    }

    /// The reply is of the kind that the pending query asks for.
    pub open spec fn expects(&self, reply: &ProfileReply) -> bool {
        match self.phase() {
            ProfilePhase::AwaitProfile => reply is Profile,
            ProfilePhase::AwaitStocks => reply is Stocks,
            ProfilePhase::AwaitSimulations => reply is Simulations,
        }
    }

    /// Starts the overview of the user's profile: the first query looks the
    /// profile up by its owner.
    pub fn start(user_id: u128) -> (step: ProfileStep)
        ensures
            step matches ProfileStep::Query { next, query } && next.inv() && next.phase()
                == ProfilePhase::AwaitProfile && query == (ProfileQuery::FindProfileByUser {
                user_id,
            }),
    {
        ProfileStep::Query {
            next: ProfileAssembly {
                phase: ProfilePhase::AwaitProfile,
                profile: None,
                stocks: Vec::new(),
                entries: Vec::new(),
                replies: Ghost(Seq::empty()),
            },
            query: ProfileQuery::FindProfileByUser { user_id },
        }
    }

    /// The query for the simulations of stock `k`.
    pub open spec fn simulations_query(stocks: Seq<Stock>, k: int) -> ProfileQuery {
        ProfileQuery::ListSimulations {
            stock_id: stocks[k].id,
            limit: Some(SIMULATIONS_PER_STOCK),
            offset: Some(0),
        }
    }

    /// Takes the reply to the pending query.
    ///
    /// * A missing profile answers 404; a failed listing of the stocks or of
    ///   any stock's simulations answers 500, and no further query is made.
    /// * Once the profile is found its stocks are listed, then the first 10
    ///   simulations of each stock, one stock after another in the order of
    ///   the listing.
    /// * After the last stock (or at once when there is none) the overview is
    ///   answered: `assembled` from the profile, its stocks and their
    ///   simulation lists.
    pub fn resume(self, reply: ProfileReply) -> (step: ProfileStep)
        requires
            self.inv(),
            self.expects(&reply),
        ensures
            match (self.phase(), reply) {
                (ProfilePhase::AwaitProfile, ProfileReply::Profile(Err(_))) => step
                    == ProfileStep::Finished(Err(StatusCode::NOT_FOUND)),
                (ProfilePhase::AwaitProfile, ProfileReply::Profile(Ok(p))) => {
                    step matches ProfileStep::Query { next, query } && next.inv() && next.phase()
                        == ProfilePhase::AwaitStocks && next.profile() == p && query == (
                    ProfileQuery::ListStocks { profile_id: p.id, limit: None, offset: None })
                },
                (ProfilePhase::AwaitStocks, ProfileReply::Stocks(Err(_))) => step
                    == ProfileStep::Finished(Err(StatusCode::INTERNAL_SERVER_ERROR)),
                (ProfilePhase::AwaitStocks, ProfileReply::Stocks(Ok(v))) => {
                    if v@.len() == 0 {
                        step matches ProfileStep::Finished(Ok(d)) && assembled(
                            d,
                            self.profile(),
                            Seq::empty(),
                            Seq::empty(),
                        )
                    } else {
                        step matches ProfileStep::Query { next, query } && next.inv()
                            && next.phase() == ProfilePhase::AwaitSimulations && next.profile()
                            == self.profile() && next.stocks() == v@ && next.replies()
                            == Seq::<Seq<Simulation>>::empty() && query
                            == Self::simulations_query(v@, 0)
                    }
                },
                (ProfilePhase::AwaitSimulations, ProfileReply::Simulations(Err(_))) => step
                    == ProfileStep::Finished(Err(StatusCode::INTERNAL_SERVER_ERROR)),
                (ProfilePhase::AwaitSimulations, ProfileReply::Simulations(Ok(sims))) => {
                    let replies = self.replies().push(sims@);
                    if replies.len() < self.stocks().len() {
                        step matches ProfileStep::Query { next, query } && next.inv()
                            && next.phase() == ProfilePhase::AwaitSimulations && next.profile()
                            == self.profile() && next.stocks() == self.stocks() && next.replies()
                            == replies && query == Self::simulations_query(
                            self.stocks(),
                            replies.len() as int,
                        )
                    } else {
                        step matches ProfileStep::Finished(Ok(d)) && assembled(
                            d,
                            self.profile(),
                            self.stocks(),
                            replies,
                        )
                    }
                },
                _ => false,
            },
    {
        let ProfileAssembly { phase, profile, stocks, entries, replies } = self;
        match reply {
            ProfileReply::Profile(found) => {
                match found {
                    Err(_) => ProfileStep::Finished(Err(StatusCode::NOT_FOUND)),
                    Ok(p) => {
                        let profile_id = p.id;
                        ProfileStep::Query {
                            next: ProfileAssembly {
                                phase: ProfilePhase::AwaitStocks,
                                profile: Some(p),
                                stocks,
                                entries,
                                replies,
                            },
                            query: ProfileQuery::ListStocks { profile_id, limit: None, offset: None },
                        }
                    },
                }
            },
            ProfileReply::Stocks(listed) => {
                match listed {
                    Err(_) => ProfileStep::Finished(Err(StatusCode::INTERNAL_SERVER_ERROR)),
                    Ok(v) => {
                        if v.len() == 0 {
                            let p = profile.unwrap();
                            let d = Self::finish(p, entries);
                            ProfileStep::Finished(Ok(d))
                        } else {
                            let stock_id = v[0].id;
                            ProfileStep::Query {
                                next: ProfileAssembly {
                                    phase: ProfilePhase::AwaitSimulations,
                                    profile,
                                    stocks: v,
                                    entries,
                                    replies,
                                },
                                query: ProfileQuery::ListSimulations {
                                    stock_id,
                                    limit: Some(SIMULATIONS_PER_STOCK),
                                    offset: Some(0),
                                },
                            }
                        }
                    },
                }
            },
            ProfileReply::Simulations(listed) => {
                match listed {
                    Err(_) => ProfileStep::Finished(Err(StatusCode::INTERNAL_SERVER_ERROR)),
                    Ok(sims) => {
                        let k = entries.len();
                        assert(phase == ProfilePhase::AwaitSimulations);
                        assert(k < stocks.len());
                        let entry = stock_entry(&stocks[k], &sims);
                        let mut entries = entries;
                        entries.push(entry);
                        let ghost new_replies = replies@.push(sims@);
                        assert forall|i: int| 0 <= i < entries@.len() implies entry_matches(
                            #[trigger] entries@[i],
                            stocks@[i],
                            new_replies[i],
                        ) by {
                            if i < k {
                                assert(entries@[i] == self.entries@[i]);
                            }
                        }
                        if k + 1 < stocks.len() {
                            let stock_id = stocks[k + 1].id;
                            ProfileStep::Query {
                                next: ProfileAssembly {
                                    phase: ProfilePhase::AwaitSimulations,
                                    profile,
                                    stocks,
                                    entries,
                                    replies: Ghost(new_replies),
                                },
                                query: ProfileQuery::ListSimulations {
                                    stock_id,
                                    limit: Some(SIMULATIONS_PER_STOCK),
                                    offset: Some(0),
                                },
                            }
                        } else {
                            let p = profile.unwrap();
                            let d = Self::finish(p, entries);
                            ProfileStep::Finished(Ok(d))
                        }
                    },
                }
            },
        }
    }

    /// The overview of `profile` with the finished entries.
    fn finish(profile: Profile, entries: Vec<StockWithSimulations>) -> (d: ProfileWithData)
        ensures
            d.id == profile.id,
            d.user_id == match profile.user_id {
                Some(u) => u,
                None => 0,
            },
            d.created_at == profile.created_at,
            d.updated_at == profile.updated_at,
            d.stocks == entries,
    {
        let user_id = match profile.user_id {
            Some(u) => u,
            None => 0,
        };
        ProfileWithData {
            id: profile.id,
            user_id,
            created_at: profile.created_at,
            updated_at: profile.updated_at,
            stocks: entries,
        }
    }
}

} // verus!
