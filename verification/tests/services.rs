use argon2::{Argon2, PasswordHash, PasswordVerifier};
use stock_simulation_engine::auth::types::{LoginInfo, RegisterInfo};
use stock_simulation_engine::db::schema::profile::Profile;
use stock_simulation_engine::db::schema::simulation::{ModelParams, ModelType, Simulation, SimulationParams};
use stock_simulation_engine::db::schema::stock::Stock;
use stock_simulation_engine::db::schema::user::User;
use stock_simulation_engine::auth::validation::hash_password;
use stock_simulation_engine::service::profile::{
    ProfileAssembly, ProfileQuery, ProfileReply, ProfileStep, SimulationBasic,
};
use stock_simulation_engine::service::simulation as sim_rules;
use stock_simulation_engine::service::stock as stock_rules;
use stock_simulation_engine::service::user::{
    get_info_result, LoginFlow, LoginQuery, LoginReply, LoginStep, RegisterFlow, RegisterQuery,
    RegisterReply, RegisterStep,
};
use stock_simulation_engine::service::RepositoryError;
use stock_simulation_engine::status::StatusCode;
use uuid::Uuid;

fn bits(x: f64) -> u64 {
    x.to_bits()
}

fn sample_params() -> SimulationParams {
    SimulationParams {
        initial_price: bits(100.0),
        drift: bits(0.05),
        volatility: bits(0.2),
        extra_params: ModelParams::Gbm,
    }
}

fn sample_simulation(stock_id: u128, params: SimulationParams) -> Simulation {
    Simulation {
        id: Uuid::new_v4().as_u128(),
        model_type: ModelType::Gbm,
        time_horizon: bits(1.0),
        steps: 1000,
        random_seed: 42,
        stock_id: Some(stock_id),
        parameters: params,
        created_at: "2024-01-01T00:00:00Z".to_string(),
        updated_at: "2024-01-01T00:00:00Z".to_string(),
    }
}

fn sample_stock(profile_id: u128) -> Stock {
    Stock {
        id: Uuid::new_v4().as_u128(),
        name: "Apple Inc.".to_string(),
        ticker: "AAPL".to_string(),
        profile_id: Some(profile_id),
        created_at: "1970-01-01T00:00:00Z".to_string(),
        updated_at: "1970-01-01T00:00:00Z".to_string(),
    }
}

// ---- simulations -------------------------------------------------------

#[test]
fn create_simulation_success() {
    let params = sample_params();
    let req = sim_rules::create_request(ModelType::Gbm, bits(1.0), 1000, 42, None, params)
        .expect("valid simulation");
    assert_eq!(req.model_type, ModelType::Gbm);
    assert_eq!(req.time_horizon, bits(1.0));
    assert_eq!(req.steps, 1000);
    assert_eq!(req.random_seed, 42);
    assert_eq!(req.stock_id, None);
    assert_eq!(req.parameters, params);
    let stored = sample_simulation(0, params);
    let id = stored.id;
    let result = sim_rules::create_result(Ok(stored));
    assert!(result.is_ok());
    assert_eq!(result.unwrap().id, id);
}

#[test]
fn create_simulation_rejects_invalid_time_horizon() {
    let result = sim_rules::create_request(ModelType::Gbm, bits(0.0), 1000, 42, None, sample_params());
    assert!(matches!(result, Err(StatusCode::BAD_REQUEST)));
}

#[test]
fn create_simulation_rejects_zero_steps() {
    let result = sim_rules::create_request(ModelType::Gbm, bits(1.0), 0, 42, None, sample_params());
    assert!(matches!(result, Err(StatusCode::BAD_REQUEST)));
}

#[test]
fn create_simulation_rejects_negative_price() {
    let mut params = sample_params();
    params.initial_price = bits(-100.0);
    let result = sim_rules::create_request(ModelType::Gbm, bits(1.0), 1000, 42, None, params);
    assert!(matches!(result, Err(StatusCode::BAD_REQUEST)));
}

#[test]
fn create_simulation_model_must_match_its_parameters() {
    let mut params = sample_params();
    assert_eq!(
        sim_rules::create_request(ModelType::Merton, bits(1.0), 10, 1, None, params),
        Err(StatusCode::BAD_REQUEST)
    );
    params.extra_params = ModelParams::Merton {
        jump_intensity: bits(5.0),
        jump_mean: bits(-0.1),
        jump_volatility: bits(0.2),
    };
    assert!(sim_rules::create_request(ModelType::Merton, bits(1.0), 10, 1, None, params).is_ok());
    assert_eq!(
        sim_rules::create_request(ModelType::Gbm, bits(1.0), 10, 1, None, params),
        Err(StatusCode::BAD_REQUEST)
    );
}

#[test]
fn create_simulation_volatility_bounds() {
    let mut params = sample_params();
    params.volatility = bits(-0.1);
    assert_eq!(
        sim_rules::create_request(ModelType::Gbm, bits(1.0), 10, 1, None, params),
        Err(StatusCode::BAD_REQUEST)
    );
    params.volatility = bits(-0.0);
    assert!(sim_rules::create_request(ModelType::Gbm, bits(1.0), 10, 1, None, params).is_ok());
    params.volatility = bits(0.0);
    assert!(sim_rules::create_request(ModelType::Gbm, bits(1.0), 10, 1, None, params).is_ok());
}

#[test]
fn create_simulation_failure_is_internal() {
    assert_eq!(sim_rules::create_result(Err(RepositoryError::Failed)), Err(StatusCode::INTERNAL_SERVER_ERROR));
}

#[test]
fn get_by_id_not_found() {
    let result = sim_rules::get_result(Err(RepositoryError::NotFound));
    assert!(matches!(sim_rules::get_result(Err(RepositoryError::Failed)), Err(StatusCode::NOT_FOUND)));
    assert!(matches!(result, Err(StatusCode::NOT_FOUND)));
}

#[test]
fn list_by_stock_id_success() {
    let stock_id = Uuid::new_v4().as_u128();
    let simulation = sample_simulation(stock_id, sample_params());
    let sim_id = simulation.id;
    let result = sim_rules::list_result(Ok(vec![simulation]));
    assert!(result.is_ok());
    let sims = result.unwrap();
    assert_eq!(sims.len(), 1);
    assert_eq!(sims[0].id, sim_id);
    assert_eq!(sim_rules::list_result(Err(RepositoryError::Failed)), Err(StatusCode::INTERNAL_SERVER_ERROR));
    assert_eq!(sim_rules::delete_result(Err(RepositoryError::Failed)), Err(StatusCode::INTERNAL_SERVER_ERROR));
    assert_eq!(sim_rules::delete_result(Ok(())), Ok(()));
}

#[test]
fn ticks_request_bounds_the_path() {
    let mut sim = sample_simulation(1, sample_params());
    sim.steps = 100_000;
    let ok = sim_rules::ticks_request(Ok(sim.clone())).ok().expect("at the bound");
    assert_eq!(ok.plan.steps, 100_000);
    assert_eq!(ok.simulation, sim);
    sim.steps = 100_001;
    assert!(matches!(sim_rules::ticks_request(Ok(sim)), Err(StatusCode::PAYLOAD_TOO_LARGE)));
    assert!(matches!(sim_rules::ticks_request(Err(RepositoryError::Failed)), Err(StatusCode::NOT_FOUND)));
}

// ---- stocks ------------------------------------------------------------

#[test]
fn create_stock_success() {
    let profile_id = Uuid::new_v4().as_u128();
    let req = stock_rules::create_request(profile_id, "AAPL", "Apple Inc.").expect("valid stock");
    assert_eq!(req.profile_id, profile_id);
    assert_eq!(req.ticker, "AAPL");
    assert_eq!(req.name, "Apple Inc.");
    let result = stock_rules::create_result(Ok(sample_stock(profile_id)));
    assert!(result.is_ok());
    assert_eq!(result.unwrap().ticker, "AAPL");
}

#[test]
fn create_stock_rejects_empty_ticker() {
    let profile_id = Uuid::new_v4().as_u128();
    let result = stock_rules::create_request(profile_id, "", "Apple Inc.");
    assert!(matches!(result, Err(StatusCode::BAD_REQUEST)));
}

#[test]
fn create_stock_rejects_long_name() {
    let profile_id = Uuid::new_v4().as_u128();
    let result = stock_rules::create_request(profile_id, "AAPL", &"a".repeat(101));
    assert!(matches!(result, Err(StatusCode::BAD_REQUEST)));
}

#[test]
fn create_stock_bounds_are_in_bytes() {
    assert!(stock_rules::create_request(1, "ABCDEFGHIJ", &"a".repeat(100)).is_ok());
    assert_eq!(stock_rules::create_request(1, "ABCDEFGHIJK", "n"), Err(StatusCode::BAD_REQUEST));
    // Five two-byte characters fill the ten bytes; six do not fit.
    assert!(stock_rules::create_request(1, "ééééé", "n").is_ok());
    assert_eq!(stock_rules::create_request(1, "éééééé", "n"), Err(StatusCode::BAD_REQUEST));
    assert_eq!(stock_rules::create_request(1, "T", ""), Err(StatusCode::BAD_REQUEST));
}

#[test]
fn create_stock_upper_cases_the_ticker() {
    let req = stock_rules::create_request(1, "aapl", "Apple").unwrap();
    assert_eq!(req.ticker, "AAPL");
    assert_eq!(stock_rules::ticker_key("aApL"), "AAPL");
    assert_eq!(stock_rules::ticker_key("brk.b"), "BRK.B");
    assert_eq!(stock_rules::ticker_key("straße"), "STRASSE");
}

#[test]
fn get_by_ticker_not_found() {
    assert_eq!(stock_rules::ticker_key("AAPL"), "AAPL");
    let result = stock_rules::get_result(Err(RepositoryError::NotFound));
    assert!(matches!(result, Err(StatusCode::NOT_FOUND)));
}

#[test]
fn update_stock_success() {
    let req = stock_rules::update_request(Some("Apple Inc. Updated".to_string()));
    assert_eq!(req, Ok(Some("Apple Inc. Updated".to_string())));
    let stock = sample_stock(1);
    let result = stock_rules::update_result(Ok(stock));
    assert!(result.is_ok());
    assert_eq!(stock_rules::update_request(None), Ok(None));
}

#[test]
fn update_stock_rejects_empty_name() {
    let result = stock_rules::update_request(Some("".to_string()));
    assert!(matches!(result, Err(StatusCode::BAD_REQUEST)));
    assert_eq!(stock_rules::update_request(Some("a".repeat(101))), Err(StatusCode::BAD_REQUEST));
}

#[test]
fn stock_failures_map_to_statuses() {
    assert_eq!(stock_rules::create_result(Err(RepositoryError::Failed)), Err(StatusCode::INTERNAL_SERVER_ERROR));
    assert_eq!(stock_rules::list_result(Err(RepositoryError::Failed)), Err(StatusCode::INTERNAL_SERVER_ERROR));
    assert_eq!(stock_rules::update_result(Err(RepositoryError::Failed)), Err(StatusCode::INTERNAL_SERVER_ERROR));
    assert_eq!(stock_rules::delete_result(Err(RepositoryError::Failed)), Err(StatusCode::INTERNAL_SERVER_ERROR));
    assert_eq!(stock_rules::delete_result(Ok(())), Ok(()));
}

#[test]
fn missing_stock_update_and_delete_answer_not_found() {
    assert_eq!(stock_rules::update_result(Err(RepositoryError::NotFound)), Err(StatusCode::NOT_FOUND));
    assert_eq!(stock_rules::delete_result(Err(RepositoryError::NotFound)), Err(StatusCode::NOT_FOUND));
}

#[test]
fn missing_simulation_delete_answers_not_found() {
    assert_eq!(sim_rules::delete_result(Err(RepositoryError::NotFound)), Err(StatusCode::NOT_FOUND));
}

// ---- profile overview --------------------------------------------------

fn expect_query(step: ProfileStep) -> (ProfileAssembly, ProfileQuery) {
    match step {
        ProfileStep::Query { next, query } => (next, query),
        ProfileStep::Finished(_) => panic!("expected a query"),
    }
}

#[test]
fn get_profile_with_data_success() {
    let user_id = Uuid::new_v4().as_u128();
    let profile_id = Uuid::new_v4().as_u128();
    let stock_id = Uuid::parse_str("550e8400-e29b-41d4-a716-446655440000").unwrap().as_u128();

    let profile = Profile {
        id: profile_id,
        user_id: Some(user_id),
        created_at: "c".to_string(),
        updated_at: "u".to_string(),
    };
    let mut stock = sample_stock(profile_id);
    stock.id = stock_id;
    let params = SimulationParams {
        initial_price: bits(150.0),
        drift: bits(0.05),
        volatility: bits(0.2),
        extra_params: ModelParams::Gbm,
    };
    let simulation = sample_simulation(stock_id, params);

    let (m, q) = expect_query(ProfileAssembly::start(user_id));
    assert_eq!(q, ProfileQuery::FindProfileByUser { user_id });
    let (m, q) = expect_query(m.resume(ProfileReply::Profile(Ok(profile))));
    assert_eq!(q, ProfileQuery::ListStocks { profile_id, limit: None, offset: None });
    let (m, q) = expect_query(m.resume(ProfileReply::Stocks(Ok(vec![stock]))));
    assert_eq!(q, ProfileQuery::ListSimulations { stock_id, limit: Some(10), offset: Some(0) });
    let result = match m.resume(ProfileReply::Simulations(Ok(vec![simulation.clone()]))) {
        ProfileStep::Finished(r) => r,
        ProfileStep::Query { .. } => panic!("expected the answer"),
    };

    assert!(result.is_ok());
    let data = result.unwrap();
    assert_eq!(data.id, profile_id);
    assert_eq!(data.stocks.len(), 1);
    assert_eq!(data.stocks[0].ticker, "AAPL");
    assert_eq!(data.stocks[0].simulations.len(), 1);
    assert_eq!(data.user_id, user_id);
    assert_eq!(data.stocks[0].initial_price, bits(150.0));
    assert_eq!(data.stocks[0].simulations[0], SimulationBasic::from(simulation));
}

#[test]
fn get_profile_with_data_not_found() {
    let user_id = Uuid::new_v4().as_u128();
    let (m, _) = expect_query(ProfileAssembly::start(user_id));
    let result = m.resume(ProfileReply::Profile(Err(RepositoryError::Failed)));
    assert!(matches!(result, ProfileStep::Finished(Err(StatusCode::NOT_FOUND))));
}

#[test]
fn profile_overview_lists_stocks_in_order_with_defaults() {
    let profile = Profile { id: 7, user_id: None, created_at: "c".into(), updated_at: "u".into() };
    let mut a = sample_stock(7);
    a.id = 1;
    a.ticker = "AAA".into();
    let mut b = sample_stock(7);
    b.id = 2;
    b.ticker = "BBB".into();
    let (m, _) = expect_query(ProfileAssembly::start(3));
    let (m, _) = expect_query(m.resume(ProfileReply::Profile(Ok(profile))));
    let (m, q) = expect_query(m.resume(ProfileReply::Stocks(Ok(vec![a, b]))));
    assert_eq!(q, ProfileQuery::ListSimulations { stock_id: 1, limit: Some(10), offset: Some(0) });
    let (m, q) = expect_query(m.resume(ProfileReply::Simulations(Ok(vec![]))));
    assert_eq!(q, ProfileQuery::ListSimulations { stock_id: 2, limit: Some(10), offset: Some(0) });
    let mut heston = sample_simulation(2, sample_params());
    heston.model_type = ModelType::Heston;
    heston.parameters.extra_params = ModelParams::Heston {
        initial_variance: bits(0.04),
        mean_reversion: bits(2.0),
        reversion_level: bits(0.04),
        vol_of_vol: bits(0.3),
        correlation: bits(-0.7),
    };
    let data = match m.resume(ProfileReply::Simulations(Ok(vec![heston.clone()]))) {
        ProfileStep::Finished(Ok(d)) => d,
        _ => panic!("expected the overview"),
    };
    assert_eq!(data.user_id, 0);
    assert_eq!(data.stocks.len(), 2);
    assert_eq!(data.stocks[0].ticker, "AAA");
    assert_eq!(data.stocks[0].model_type, ModelType::Gbm);
    assert_eq!(data.stocks[0].initial_price, 0);
    assert_eq!(data.stocks[0].extra_params, ModelParams::Gbm);
    assert!(data.stocks[0].simulations.is_empty());
    assert_eq!(data.stocks[1].model_type, ModelType::Heston);
    assert_eq!(data.stocks[1].extra_params, heston.parameters.extra_params);
}

#[test]
fn profile_overview_fails_on_listing_errors() {
    let profile = Profile { id: 7, user_id: None, created_at: "c".into(), updated_at: "u".into() };
    let (m, _) = expect_query(ProfileAssembly::start(3));
    let (m, _) = expect_query(m.resume(ProfileReply::Profile(Ok(profile.clone()))));
    assert!(matches!(
        m.resume(ProfileReply::Stocks(Err(RepositoryError::Failed))),
        ProfileStep::Finished(Err(StatusCode::INTERNAL_SERVER_ERROR))
    ));
    let (m, _) = expect_query(ProfileAssembly::start(3));
    let (m, _) = expect_query(m.resume(ProfileReply::Profile(Ok(profile.clone()))));
    let (m, _) = expect_query(m.resume(ProfileReply::Stocks(Ok(vec![sample_stock(7)]))));
    assert!(matches!(
        m.resume(ProfileReply::Simulations(Err(RepositoryError::Failed))),
        ProfileStep::Finished(Err(StatusCode::INTERNAL_SERVER_ERROR))
    ));
    let (m, _) = expect_query(ProfileAssembly::start(3));
    let (m, _) = expect_query(m.resume(ProfileReply::Profile(Ok(profile))));
    match m.resume(ProfileReply::Stocks(Ok(vec![]))) {
        ProfileStep::Finished(Ok(d)) => assert!(d.stocks.is_empty()),
        _ => panic!("a profile without stocks is answered at once"),
    }
}

// ---- registration and login -------------------------------------------

fn register_info(username: &str, email: &str, password: &str) -> RegisterInfo {
    RegisterInfo {
        username: username.to_string(),
        email: email.to_string(),
        password: password.to_string(),
    }
}

fn expect_register_query(step: RegisterStep) -> (RegisterFlow, RegisterQuery) {
    match step {
        RegisterStep::Query { next, query } => (next, query),
        RegisterStep::Finished(r) => panic!("expected a query, got {:?}", r),
    }
}

#[test]
fn register_creates_user_and_returns_id() {
    let id = Uuid::new_v4();
    let (flow, q) = expect_register_query(RegisterFlow::start(register_info(
        "ada",
        "ada@example.com",
        "correct horse battery staple",
    )));
    assert_eq!(q, RegisterQuery::EmailExists { email: "ada@example.com".to_string() });
    let (flow, q) = expect_register_query(flow.resume(RegisterReply::EmailExists(false)));
    assert_eq!(q, RegisterQuery::UsernameExists { username: "ada".to_string() });
    let (flow, q) = expect_register_query(flow.resume(RegisterReply::UsernameExists(false)));
    match q {
        RegisterQuery::CreateUser { name, email, password_hash } => {
            assert_eq!(name, "ada");
            assert_eq!(email, "ada@example.com");
            let hash = PasswordHash::new(&password_hash).expect("handler must hash the password");
            Argon2::default()
                .verify_password(b"correct horse battery staple", &hash)
                .expect("stored hash must verify against the plaintext");
        }
        other => panic!("expected the creation, got {:?}", other),
    }
    let response = match flow.resume(RegisterReply::Created(Ok(id.as_u128()))) {
        RegisterStep::Finished(r) => r.expect("registration should succeed"),
        RegisterStep::Query { .. } => panic!("expected the answer"),
    };
    assert_eq!(response.id, id.to_string());
}

#[test]
fn register_rejects_duplicate_email() {
    let (flow, _) = expect_register_query(RegisterFlow::start(register_info(
        "ada",
        "ada@example.com",
        "correct horse battery staple",
    )));
    let response = flow.resume(RegisterReply::EmailExists(true));
    assert!(matches!(response, RegisterStep::Finished(Err(StatusCode::CONFLICT))));
}

#[test]
fn register_rejects_duplicate_username() {
    let (flow, _) = expect_register_query(RegisterFlow::start(register_info(
        "ada",
        "ada@example.com",
        "correct horse battery staple",
    )));
    let (flow, _) = expect_register_query(flow.resume(RegisterReply::EmailExists(false)));
    let response = flow.resume(RegisterReply::UsernameExists(true));
    assert!(matches!(response, RegisterStep::Finished(Err(StatusCode::CONFLICT))));
}

#[test]
fn register_rejects_invalid_payload_without_touching_db() {
    let response = RegisterFlow::start(register_info(
        "ada",
        "not-an-email",
        "correct horse battery staple",
    ));
    assert!(matches!(response, RegisterStep::Finished(Err(StatusCode::BAD_REQUEST))));
}

#[test]
fn register_failed_creation_is_internal() {
    let (flow, _) = expect_register_query(RegisterFlow::start(register_info("ada", "a@b.c", "secret1")));
    let (flow, _) = expect_register_query(flow.resume(RegisterReply::EmailExists(false)));
    let (flow, _) = expect_register_query(flow.resume(RegisterReply::UsernameExists(false)));
    assert!(matches!(
        flow.resume(RegisterReply::Created(Err(RepositoryError::Failed))),
        RegisterStep::Finished(Err(StatusCode::INTERNAL_SERVER_ERROR))
    ));
}

fn user_with_password(password: &str) -> User {
    User {
        id: 0x123e4567_e89b_12d3_a456_426614174000,
        name: "ada".to_string(),
        email: "ada@example.com".to_string(),
        password: hash_password(password).unwrap(),
        created_at: String::new(),
        updated_at: String::new(),
    }
}

fn login_start() -> LoginFlow {
    let info = LoginInfo { email: "ada@example.com".to_string(), password: "pw123456".to_string() };
    match LoginFlow::start(info) {
        LoginStep::Query { next, query } => {
            assert_eq!(query, LoginQuery::FindUserByEmail { email: "ada@example.com".to_string() });
            next
        }
        LoginStep::Finished(_) => panic!("expected the lookup"),
    }
}

#[test]
fn login_issues_a_token_for_the_user() {
    let flow = match login_start().resume(LoginReply::User(Ok(user_with_password("pw123456")))) {
        LoginStep::Query { next, query } => {
            assert_eq!(
                query,
                LoginQuery::IssueToken {
                    email: "ada@example.com".to_string(),
                    user_id: "123e4567-e89b-12d3-a456-426614174000".to_string(),
                }
            );
            next
        }
        LoginStep::Finished(r) => panic!("expected a token request, got {:?}", r),
    };
    match flow.resume(LoginReply::Token(Ok("signed".to_string()))) {
        LoginStep::Finished(Ok(resp)) => assert_eq!(resp.token, "signed"),
        _ => panic!("expected the token"),
    }
}

#[test]
fn login_rejects_unknown_user_and_wrong_password() {
    assert!(matches!(
        login_start().resume(LoginReply::User(Err(RepositoryError::Failed))),
        LoginStep::Finished(Err(StatusCode::UNAUTHORIZED))
    ));
    assert!(matches!(
        login_start().resume(LoginReply::User(Ok(user_with_password("other-password")))),
        LoginStep::Finished(Err(StatusCode::UNAUTHORIZED))
    ));
    let mut broken = user_with_password("pw123456");
    broken.password = "plain".to_string();
    assert!(matches!(
        login_start().resume(LoginReply::User(Ok(broken))),
        LoginStep::Finished(Err(StatusCode::UNAUTHORIZED))
    ));
}

#[test]
fn get_info_answers_the_stored_name() {
    assert_eq!(get_info_result(Ok(user_with_password("x"))), Ok("ada".to_string()));
    assert_eq!(get_info_result(Err(RepositoryError::Failed)), Err(StatusCode::NOT_FOUND));
}
