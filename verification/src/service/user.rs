//! Registration, login and the user's own information.
//!
//! Registration and login query the repository more than once, so each is a
//! state machine: `start` names the first query, and `resume` takes its reply
//! and names the next one or finishes.
use vstd::prelude::*;
use crate::auth::types::{LoginInfo, LoginResponse, RegisterInfo, RegisterResponse};
use crate::auth::validation::{hash_password, password_fits, spec_verify_password, verify_password};
use crate::db::schema::user::User;
use crate::ids::{uuid_text, uuid_to_text};
use crate::service::RepositoryError;
use crate::status::StatusCode;

verus! {

/// The repository that the user operations use.
pub struct UserService<R> {
    pub repo: R,
}

impl<R> UserService<R> {
    pub fn new(repo: R) -> (r: Self)
        ensures
            r.repo == repo,
    {
        UserService { repo }
    }
}

/// A repository query of the registration.
#[derive(Debug, Clone, PartialEq, Eq)]
pub enum RegisterQuery {
    /// Is an account already registered with this email?
    EmailExists { email: String },
    /// Is an account already registered with this username?
    UsernameExists { username: String },
    /// Create the user (and the user's profile) with this password hash.
    CreateUser { name: String, email: String, password_hash: String },
}

/// The repository's reply to a `RegisterQuery`, of the same kind; a created
/// user is answered with its id.
#[derive(Debug, PartialEq, Eq)]
pub enum RegisterReply {
    EmailExists(bool),
    UsernameExists(bool),
    Created(Result<u128, RepositoryError>),
}

#[derive(Debug, Clone, Copy, PartialEq, Eq, Structural)]
pub enum RegisterPhase {
    AwaitEmailCheck,
    AwaitUsernameCheck,
    AwaitCreate,
}

/// A registration under way.
pub struct RegisterFlow {
    phase: RegisterPhase,
    info: RegisterInfo,
}

/// What happens next: another query, with the flow that expects its reply,
/// or the answer.
pub enum RegisterStep {
    Query { next: RegisterFlow, query: RegisterQuery },
    Finished(Result<RegisterResponse, StatusCode>),
}

impl RegisterFlow {
    pub closed spec fn phase(&self) -> RegisterPhase {
        self.phase
    }

    /// The request being registered.
    pub closed spec fn info(&self) -> RegisterInfo {
        self.info
    }

    /// The reply is of the kind that the pending query asks for.
    pub open spec fn expects(&self, reply: &RegisterReply) -> bool {
        match self.phase() {
            RegisterPhase::AwaitEmailCheck => reply is EmailExists,
            RegisterPhase::AwaitUsernameCheck => reply is UsernameExists,
            RegisterPhase::AwaitCreate => reply is Created,
        }
    }

    /// Starts a registration: an invalid request is answered 400 at once,
    /// without any query; a valid one first asks whether its email is taken.
    pub fn start(info: RegisterInfo) -> (step: RegisterStep)
        ensures
            !info.is_valid() ==> step == RegisterStep::Finished(Err(StatusCode::BAD_REQUEST)),
            info.is_valid() ==> (step matches RegisterStep::Query { next, query } && next.phase()
                == RegisterPhase::AwaitEmailCheck && next.info() == info && (
            query matches RegisterQuery::EmailExists { email } && email@ == info.email@)),
    {
        if info.validate().is_err() {
            return RegisterStep::Finished(Err(StatusCode::BAD_REQUEST));
        }
        let email = info.email.clone();
        RegisterStep::Query {
            next: RegisterFlow { phase: RegisterPhase::AwaitEmailCheck, info },
            query: RegisterQuery::EmailExists { email },
        }
    }

    /// Takes the reply to the pending query.
    ///
    /// * A taken email answers 409 without asking about the username; a taken
    ///   username answers 409 without creating anything.
    /// * Otherwise the password is hashed, which fails (500) only for a
    ///   password beyond Argon2's bound (`password_fits`), and the user is
    ///   created with the username, the email and the hash, never the
    ///   password itself: the hash verifies the password.
    /// * A created user is answered with the text of its id; a failed creation
    ///   with 500.
    pub fn resume(self, reply: RegisterReply) -> (step: RegisterStep)
        requires
            self.expects(&reply),
        ensures
            match (self.phase(), reply) {
                (RegisterPhase::AwaitEmailCheck, RegisterReply::EmailExists(taken)) => if taken {
                    step == RegisterStep::Finished(Err(StatusCode::CONFLICT))
                } else {
                    step matches RegisterStep::Query { next, query } && next.phase()
                        == RegisterPhase::AwaitUsernameCheck && next.info() == self.info()
                        && (query matches RegisterQuery::UsernameExists { username } && username@
                        == self.info().username@)
                },
                (RegisterPhase::AwaitUsernameCheck, RegisterReply::UsernameExists(taken)) => if taken {
                    step == RegisterStep::Finished(Err(StatusCode::CONFLICT))
                } else {
                    if password_fits(self.info().password@) {
                        step matches RegisterStep::Query { next, query } && next.phase()
                            == RegisterPhase::AwaitCreate && next.info() == self.info()
                            && (query matches RegisterQuery::CreateUser { name, email, password_hash }
                            && name@ == self.info().username@ && email@ == self.info().email@
                            && spec_verify_password(self.info().password@, password_hash@) == Ok::<
                            bool,
                            StatusCode,
                        >(true))
                    } else {
                        step == RegisterStep::Finished(Err(StatusCode::INTERNAL_SERVER_ERROR))
                    }
                },
                (RegisterPhase::AwaitCreate, RegisterReply::Created(created)) => match created {
                    Ok(id) => step matches RegisterStep::Finished(Ok(resp)) && resp.id@ == uuid_text(
                        id,
                    ),
                    Err(_) => step == RegisterStep::Finished(Err(StatusCode::INTERNAL_SERVER_ERROR)),
                },
                _ => false,
            },
    {
        let RegisterFlow { phase, info } = self;
        match reply {
            RegisterReply::EmailExists(taken) => {
                if taken {
                    RegisterStep::Finished(Err(StatusCode::CONFLICT))
                } else {
                    let username = info.username.clone();
                    RegisterStep::Query {
                        next: RegisterFlow { phase: RegisterPhase::AwaitUsernameCheck, info },
                        query: RegisterQuery::UsernameExists { username },
                    }
                }
            },
            RegisterReply::UsernameExists(taken) => {
                if taken {
                    RegisterStep::Finished(Err(StatusCode::CONFLICT))
                } else {
                    match hash_password(info.password.as_str()) {
                        Err(e) => RegisterStep::Finished(Err(e)),
                        Ok(password_hash) => {
                            let name = info.username.clone();
                            let email = info.email.clone();
                            RegisterStep::Query {
                                next: RegisterFlow { phase: RegisterPhase::AwaitCreate, info },
                                query: RegisterQuery::CreateUser { name, email, password_hash },
                            }
                        },
                    }
                }
            },
            RegisterReply::Created(created) => {
                match created {
                    Ok(id) => RegisterStep::Finished(Ok(RegisterResponse { id: uuid_to_text(id) })),
                    Err(_) => RegisterStep::Finished(Err(StatusCode::INTERNAL_SERVER_ERROR)),
                }
            },
        }
    }
}

/// A repository query, or other outside work, of the login.
#[derive(Debug, Clone, PartialEq, Eq)]
pub enum LoginQuery {
    /// The user registered with this email.
    FindUserByEmail { email: String },
    /// Sign a token for the user with this email and id text.
    IssueToken { email: String, user_id: String },
}

/// The reply to a `LoginQuery`, of the same kind.
#[derive(Debug, PartialEq, Eq)]
pub enum LoginReply {
    User(Result<User, RepositoryError>),
    Token(Result<String, StatusCode>),
}

#[derive(Debug, Clone, Copy, PartialEq, Eq, Structural)]
pub enum LoginPhase {
    AwaitUser,
    AwaitToken,
}

/// A login under way.
pub struct LoginFlow {
    phase: LoginPhase,
    info: LoginInfo,
}

/// What happens next: another query, with the flow that expects its reply,
/// or the answer.
pub enum LoginStep {
    Query { next: LoginFlow, query: LoginQuery },
    Finished(Result<LoginResponse, StatusCode>),
}

impl LoginFlow {
    pub closed spec fn phase(&self) -> LoginPhase {
        self.phase
    }

    /// The credentials being checked.
    pub closed spec fn info(&self) -> LoginInfo {
        self.info
    }

    /// The reply is of the kind that the pending query asks for.
    pub open spec fn expects(&self, reply: &LoginReply) -> bool {
        match self.phase() {
            LoginPhase::AwaitUser => reply is User,
            LoginPhase::AwaitToken => reply is Token,
        }
    }

    /// Starts a login: the user is looked up by the email.
    pub fn start(info: LoginInfo) -> (step: LoginStep)
        ensures
            step matches LoginStep::Query { next, query } && next.phase() == LoginPhase::AwaitUser
                && next.info() == info && (query matches LoginQuery::FindUserByEmail { email }
                && email@ == info.email@),
    {
        let email = info.email.clone();
        LoginStep::Query {
            next: LoginFlow { phase: LoginPhase::AwaitUser, info },
            query: LoginQuery::FindUserByEmail { email },
        }
    }

    /// Takes the reply to the pending query.
    ///
    /// * An unknown email, a stored hash that does not parse, or a wrong
    ///   password answer 401, and no token is signed.
    /// * A matching password asks for a token with the given email as `sub`
    ///   and the text of the user's id as `user_id`.
    /// * The signed token is the answer; a failure to sign is passed on.
    pub fn resume(self, reply: LoginReply) -> (step: LoginStep)
        requires
            self.expects(&reply),
        ensures
            match (self.phase(), reply) {
                (LoginPhase::AwaitUser, LoginReply::User(found)) => match found {
                    Err(_) => step == LoginStep::Finished(Err(StatusCode::UNAUTHORIZED)),
                    Ok(user) => if spec_verify_password(self.info().password@, user.password@)
                        == Ok::<bool, StatusCode>(true) {
                        step matches LoginStep::Query { next, query } && next.phase()
                            == LoginPhase::AwaitToken && next.info() == self.info()
                            && (query matches LoginQuery::IssueToken { email, user_id } && email@
                            == self.info().email@ && user_id@ == uuid_text(user.id))
                    } else {
                        step == LoginStep::Finished(Err(StatusCode::UNAUTHORIZED))
                    },
                },
                (LoginPhase::AwaitToken, LoginReply::Token(signed)) => match signed {
                    Ok(token) => step matches LoginStep::Finished(Ok(resp)) && resp.token == token,
                    Err(e) => step == LoginStep::Finished(Err(e)),
                },
                _ => false,
            },
    {
        let LoginFlow { phase, info } = self;
        match reply {
            LoginReply::User(found) => {
                match found {
                    Err(_) => LoginStep::Finished(Err(StatusCode::UNAUTHORIZED)),
                    Ok(user) => {
                        let checked = verify_password(info.password.as_str(), user.password.as_str());
                        match checked {
                            Ok(true) => {
                                let email = info.email.clone();
                                let user_id = uuid_to_text(user.id);
                                LoginStep::Query {
                                    next: LoginFlow { phase: LoginPhase::AwaitToken, info },
                                    query: LoginQuery::IssueToken { email, user_id },
                                }
                            },
                            Ok(false) => LoginStep::Finished(Err(StatusCode::UNAUTHORIZED)),
                            Err(e) => LoginStep::Finished(Err(e)),
                        }
                    },
                }
            },
            LoginReply::Token(signed) => {
                match signed {
                    Ok(token) => LoginStep::Finished(Ok(LoginResponse { token })),
                    Err(e) => LoginStep::Finished(Err(e)),
                }
            },
        }
    }
}

/// The answer to the user's own information, once the token's email has been
/// looked up: the stored username, or 404 when no user has that email any
/// more.
pub fn get_info_result(found: Result<User, RepositoryError>) -> (r: Result<String, StatusCode>)
    ensures
        match found {
            Ok(user) => r == Ok::<String, StatusCode>(user.name),
            Err(_) => r == Err::<String, StatusCode>(StatusCode::NOT_FOUND),
        },
{
    match found {
        Ok(user) => Ok(user.name),
        Err(_) => Err(StatusCode::NOT_FOUND),
    }
}

} // verus!
