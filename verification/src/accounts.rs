use vstd::prelude::*;

use crate::errors::AccountError;
use crate::errors::PersistenceFault;
use crate::user::Role;
use crate::user::User;

use argon2::Argon2;
use argon2::password_hash::PasswordHasher;
use argon2::password_hash::PasswordVerifier;
use argon2::password_hash::SaltString;
use argon2::password_hash::rand_core::OsRng;

verus! {

/// The inbound request to create an account.
#[derive(Debug, PartialEq)]
pub struct RegisterUserCommand {
    pub username: String,
    pub password: String,
    pub name: String,
    pub phone: String,
}

/// What a completed registration reports back to the caller.
#[derive(Debug, PartialEq)]
pub struct RegisterUserResult {
    pub user_id: i32,
    pub username: String,
    pub role: Role,
}

/// The inbound request to log in.
#[derive(Debug, PartialEq)]
pub struct LoginCommand {
    pub username: String,
    pub password: String,
}

/// What a successful login reports back to the caller.
#[derive(Debug, PartialEq)]
pub struct LoginResult {
    pub token: String,
    pub user_id: i32,
    pub username: String,
    pub role: Role,
}

/// The inbound request to change a user's role.
#[derive(Clone, Copy, Debug, PartialEq, Eq, Structural)]
pub struct PromoteUserCommand {
    pub user_id: i32,
    pub target_role: Role,
}

/// What a completed promotion reports back to the caller.
#[derive(Debug, PartialEq)]
pub struct PromoteUserResult {
    pub user_id: i32,
    pub username: String,
    pub role: Role,
}

/// A user as listed to an administrator: everything but the hash.
#[derive(Debug, PartialEq)]
pub struct UserResponse {
    pub id: i32,
    pub username: String,
    pub name: String,
    pub phone: String,
    pub role: Role,
}

/// Whether a stored hash parses as a PHC string; what
/// `password_hash::PasswordHash::new` accepts.
pub uninterp spec fn phc_valid(hash: Seq<char>) -> bool;

/// Whether a password matches a PHC hash under argon2's recomputation;
/// what `Argon2::verify_password` accepts. A function of the two strings
/// alone: the parameters and the salt are carried inside the hash.
pub uninterp spec fn password_matches(hash: Seq<char>, password: Seq<char>) -> bool;

/// Relies on `argon2::Argon2::hash_password` with the default parameters
/// and a salt drawn freshly from the system: the salt makes the output
/// hash unpredictable, but whatever PHC string comes back parses again
/// and verifies against the same password, since verification recomputes
/// the hash with the parameters and salt carried in the string.
#[verifier::external_body]
pub fn hash_password(password: &str) -> (r: Result<String, AccountError>)
    ensures
        match r {
            Ok(hash) => phc_valid(hash@) && password_matches(hash@, password@),
            Err(e) => e == AccountError::Hashing,
        },
{
    let salt = SaltString::generate(&mut OsRng);
    let hashed = Argon2::default().hash_password(password.as_bytes(), &salt).map_err(
        |_| AccountError::Hashing,
    )?;
    Ok(hashed.to_string())
}

/// Relies on `password_hash::PasswordHash::new`, which parses the stored
/// PHC string, and `argon2::Argon2::verify_password`, which recomputes
/// the hash with the parameters carried in it: both are deterministic in
/// the two strings.
#[verifier::external_body]
pub fn verify_password(hash: &str, password: &str) -> (r: Result<bool, AccountError>)
    ensures
        r is Ok <==> phc_valid(hash@),
        match r {
            Ok(ok) => ok == password_matches(hash@, password@),
            Err(e) => e == AccountError::Hashing,
        },
{
    let parsed = argon2::password_hash::PasswordHash::new(hash).map_err(
        |_| AccountError::Hashing,
    )?;
    Ok(Argon2::default().verify_password(password.as_bytes(), &parsed).is_ok())
}

/// Registration, given the repository's answer for the requested
/// username: refuse a taken name, hash the password, and build the
/// customer account to persist.
pub fn prepare_registration(
    existing: Result<Option<User>, PersistenceFault>,
    command: RegisterUserCommand,
) -> (r: Result<User, AccountError>)
    ensures
        existing is Err ==> r == Err::<User, AccountError>(AccountError::Persistence),
        existing matches Ok(Some(_)) ==> r == Err::<User, AccountError>(
            AccountError::UsernameTaken,
        ),
        existing == Ok::<Option<User>, PersistenceFault>(None) ==> match r {
            Ok(user) => user.id is None && user.username == command.username && user.name
                == command.name && user.phone == command.phone && user.role == Role::Customer
                && phc_valid(user.password_hash@) && password_matches(
                user.password_hash@,
                command.password@,
            ),
            Err(e) => e == AccountError::Hashing,
        },
{
    match existing {
        Err(_) => Err(AccountError::Persistence),
        Ok(Some(_)) => Err(AccountError::UsernameTaken),
        Ok(None) => {
            let hash = match hash_password(command.password.as_str()) {
                Ok(hash) => hash,
                Err(e) => {
                    return Err(e);
                },
            };
            Ok(User::new_customer(command.username, hash, command.name, command.phone))
        },
    }
}

/// What registration reports once the repository has persisted the
/// account: a missing identifier is reported as 0, as the caller-facing
/// placeholder.
pub fn register_on_persisted(persisted: Result<User, PersistenceFault>) -> (r: Result<
    RegisterUserResult,
    AccountError,
>)
    ensures
        persisted is Err ==> r == Err::<RegisterUserResult, AccountError>(
            AccountError::Persistence,
        ),
        persisted matches Ok(user) ==> r matches Ok(res) && res.user_id == user.id.unwrap_or(0)
            && res.username == user.username && res.role == user.role,
{
    match persisted {
        Err(_) => Err(AccountError::Persistence),
        Ok(user) => {
            let user_id = user.id.unwrap_or(0);
            Ok(RegisterUserResult { user_id, username: user.username, role: user.role })
        },
    }
}

/// The credential check of a login, given the repository's answer for
/// the command's username: a missing user and a wrong password are
/// answered alike, so the response does not reveal which usernames
/// exist.
pub fn login_check(found: Result<Option<User>, PersistenceFault>, command: &LoginCommand) -> (r:
    Result<User, AccountError>)
    ensures
        found is Err ==> r == Err::<User, AccountError>(AccountError::Persistence),
        found == Ok::<Option<User>, PersistenceFault>(None) ==> r == Err::<User, AccountError>(
            AccountError::InvalidCredentials,
        ),
        found matches Ok(Some(user)) ==> if !phc_valid(user.password_hash@) {
            r == Err::<User, AccountError>(AccountError::Hashing)
        } else if !password_matches(user.password_hash@, command.password@) {
            r == Err::<User, AccountError>(AccountError::InvalidCredentials)
        } else if user.id is None {
            r == Err::<User, AccountError>(AccountError::MissingId)
        } else {
            r == Ok::<User, AccountError>(user)
        },
{
    match found {
        Err(_) => Err(AccountError::Persistence),
        Ok(None) => Err(AccountError::InvalidCredentials),
        Ok(Some(user)) => {
            let ok = match verify_password(user.password_hash.as_str(), command.password.as_str()) {
                Ok(ok) => ok,
                Err(e) => {
                    return Err(e);
                },
            };
            if !ok {
                return Err(AccountError::InvalidCredentials);
            }
            if user.id.is_none() {
                return Err(AccountError::MissingId);
            }
            Ok(user)
        },
    }
}

/// What a login reports once the token service has issued a token for
/// the checked user.
pub fn login_result(user: User, token: String) -> (r: Result<LoginResult, AccountError>)
    ensures
        user.id is None ==> r == Err::<LoginResult, AccountError>(AccountError::MissingId),
        user.id matches Some(user_id) ==> r matches Ok(res) && res.token == token && res.user_id
            == user_id && res.username == user.username && res.role == user.role,
{
    match user.id {
        None => Err(AccountError::MissingId),
        Some(user_id) => Ok(
            LoginResult { token, user_id, username: user.username, role: user.role },
        ),
    }
}

/// Promotion, given the repository's answer for the command's user:
/// overwrite the role and hand back the account to persist.
pub fn apply_promotion(
    found: Result<Option<User>, PersistenceFault>,
    command: &PromoteUserCommand,
) -> (r: Result<User, AccountError>)
    ensures
        found is Err ==> r == Err::<User, AccountError>(AccountError::Persistence),
        found == Ok::<Option<User>, PersistenceFault>(None) ==> r == Err::<User, AccountError>(
            AccountError::NotFound,
        ),
        found matches Ok(Some(user)) ==> r == Ok::<User, AccountError>(
            User { role: command.target_role, ..user },
        ),
{
    match found {
        Err(_) => Err(AccountError::Persistence),
        Ok(None) => Err(AccountError::NotFound),
        Ok(Some(user)) => Ok(
            User {
                id: user.id,
                username: user.username,
                password_hash: user.password_hash,
                name: user.name,
                phone: user.phone,
                role: command.target_role,
            },
        ),
    }
}

/// What a promotion reports once the repository has persisted the
/// changed account.
pub fn promote_on_persisted(updated: Result<User, PersistenceFault>) -> (r: Result<
    PromoteUserResult,
    AccountError,
>)
    ensures
        updated is Err ==> r == Err::<PromoteUserResult, AccountError>(AccountError::Persistence),
        updated matches Ok(user) ==> r matches Ok(res) && res.user_id == user.id.unwrap_or(0)
            && res.username == user.username && res.role == user.role,
{
    match updated {
        Err(_) => Err(AccountError::Persistence),
        Ok(user) => {
            let user_id = user.id.unwrap_or(0);
            Ok(PromoteUserResult { user_id, username: user.username, role: user.role })
        },
    }
}

/// The listing view of one user: every field but the hash, with 0 for a
/// missing identifier.
pub open spec fn user_response_of(user: User) -> UserResponse {
    UserResponse {
        id: user.id.unwrap_or(0),
        username: user.username,
        name: user.name,
        phone: user.phone,
        role: user.role,
    }
}

/// The listing view of one user.
pub fn user_response_for(user: &User) -> (r: UserResponse)
    ensures
        r == user_response_of(*user),
{
    UserResponse {
        id: user.id.unwrap_or(0),
        username: user.username.clone(),
        name: user.name.clone(),
        phone: user.phone.clone(),
        role: user.role,
    }
}

/// The listing view of every user, in the repository's order.
pub fn user_responses(users: &Vec<User>) -> (r: Vec<UserResponse>)
    ensures
        r@.len() == users@.len(),
        forall|i: int| 0 <= i < users@.len() ==> r@[i] == user_response_of(users@[i]),
{
    let mut r: Vec<UserResponse> = Vec::new();
    let mut i: usize = 0;
    while i < users.len()
        invariant
            i <= users@.len(),
            r@.len() == i,
            forall|j: int| 0 <= j < i ==> r@[j] == user_response_of(users@[j]),
        decreases users@.len() - i,
    {
        let response = user_response_for(&users[i]);
        r.push(response);
        i += 1;
    }
    r
}

} // verus!
