use vstd::prelude::*;
use crate::error::ArcaneVaultError;

verus! {

/// The configuration key that holds the store's host address.
pub const HOST_KEY: &'static str = "arcane-vault[0].ip_address";

/// The configuration key that holds the store's user name.
pub const USERNAME_KEY: &'static str = "arcane-vault[0].username";

/// The configuration key that holds the store's password.
pub const PASSWORD_KEY: &'static str = "arcane-vault[0].password";

/// The configuration key that holds the name of the database.
pub const DATABASE_NAME_KEY: &'static str = "arcane-vault[0].database_name";

/// What the connection pool is built from.
#[derive(Debug, Clone, PartialEq, Eq)]
pub struct PoolSettings {
    pub host: String,
    pub username: String,
    pub password: String,
    pub database_name: String,
}

impl PoolSettings {
    /// The settings, when the configuration holds all four of them; a
    /// missing one leaves the pool unbuildable.
    pub fn from_keys(
        host: Option<String>,
        username: Option<String>,
        password: Option<String>,
        database_name: Option<String>,
    ) -> (r: Option<PoolSettings>)
        ensures
            r is Some <==> (host is Some && username is Some && password is Some
                && database_name is Some),
            r matches Some(s) ==> (host == Some(s.host) && username == Some(s.username)
                && password == Some(s.password) && database_name == Some(s.database_name)),
    {
        match (host, username, password, database_name) {
            (Some(host), Some(username), Some(password), Some(database_name)) => Some(
                PoolSettings { host, username, password, database_name },
            ),
            _ => None,
        }
    }
}

/// The result of a statement that must yield one record, from the record it
/// yielded if any: no record is a no-data error.
pub fn single_row<T>(row: Option<T>) -> (r: Result<T, ArcaneVaultError>)
    ensures
        match row {
            Some(v) => r == Ok::<T, ArcaneVaultError>(v),
            None => r matches Err(e) && e.is_no_data_spec(),
        },
{
    match row {
        Some(v) => Ok(v),
        None => Err(ArcaneVaultError::no_data()),
    }
}

} // verus!
