//! The description of a connection to the store.
//!
//! The password argument is first taken as the name of an environment
//! variable. The caller looks that variable up, once, and hands in what it
//! found; nothing here reads the environment.

use vstd::prelude::*;

verus! {

/// The port on which the store listens.
pub const DEFAULT_PORT: u16 = 3306;

/// What is needed to connect to the store.
#[derive(Debug, Clone, PartialEq, Eq)]
pub struct ConnectionDescriptor {
    pub user: String,
    pub password: String,
    pub host: String,
    pub port: u16,
    pub database: String,
}

/// The mathematical value of a [`ConnectionDescriptor`].
pub struct ConnectionView {
    pub user: Seq<char>,
    pub password: Seq<char>,
    pub host: Seq<char>,
    pub port: u16,
    pub database: Seq<char>,
}

impl View for ConnectionDescriptor {
    type V = ConnectionView;

    open spec fn view(&self) -> ConnectionView {
        ConnectionView {
            user: self.user@,
            password: self.password@,
            host: self.host@,
            port: self.port,
            database: self.database@,
        }
    }
}

/// The password to connect with: the value of the environment variable that
/// the argument names, where that variable is set, and else the argument
/// itself.
pub open spec fn resolved_password(pass: Seq<char>, variable: Option<Seq<char>>) -> Seq<char> {
    match variable {
        Some(value) => value,
        None => pass,
    }
}

/// The value of what was found in the environment.
pub open spec fn variable_view(variable: Option<&str>) -> Option<Seq<char>> {
    match variable {
        Some(value) => Some(value@),
        None => None,
    }
}

/// Resolves the password. `variable` is the value of the environment
/// variable named `pass`, or `None` where no such variable is set.
pub fn resolve_password(pass: &str, variable: Option<&str>) -> (password: String)
    ensures
        password@ == resolved_password(pass@, variable_view(variable)),
{
    match variable {
        Some(value) => value.to_owned(),
        None => pass.to_owned(),
    }
}

/// Describes the connection for a user, a password or the name of an
/// environment variable that holds it, a host address and a database name.
/// `variable` is the value of the environment variable named `pass`, or
/// `None` where no such variable is set. The port is always
/// [`DEFAULT_PORT`].
pub fn get_opts(
    user: &str,
    pass: &str,
    variable: Option<&str>,
    addr: &str,
    database: &str,
) -> (descriptor: ConnectionDescriptor)
    ensures
        descriptor@.user == user@,
        descriptor@.password == resolved_password(pass@, variable_view(variable)),
        variable is None ==> descriptor@.password == pass@,
        variable matches Some(value) ==> descriptor@.password == value@,
        descriptor@.host == addr@,
        descriptor@.port == DEFAULT_PORT,
        descriptor@.database == database@,
{
    ConnectionDescriptor {
        user: user.to_owned(),
        password: resolve_password(pass, variable),
        host: addr.to_owned(),
        port: DEFAULT_PORT,
        database: database.to_owned(),
    }
}

} // verus!
