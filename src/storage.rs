//! Saved connection profiles and the decisions around their secrets.
//! Reading and writing the profile file and the OS credential store happen
//! outside; this module decides what the stored list and secrets become.

use vstd::prelude::*;
use vstd::string::StringExecFns;
use crate::error::Error;

verus! {

/// The engine kind of a connection, fixed when it is made.
#[derive(Debug, Clone, Copy, PartialEq, Eq, Structural)]
pub enum DbType {
    /// The tabular-stream engine.
    Mssql,
    /// The resource-protocol engine.
    Mysql,
    /// The extended-query engine.
    Postgres,
}

/// How a saved connection authenticates.
#[derive(Debug, Clone, Copy, PartialEq, Eq, Structural)]
pub enum AuthType {
    /// A user name and a password kept in the credential store.
    Sql,
    /// The operating system's identity.
    Integrated,
}

/// A saved connection profile. Its password is kept apart, in the credential store.
#[derive(Debug, Clone)]
pub struct SavedConnection {
    pub name: String,
    pub db_type: DbType,
    pub server: String,
    pub database: String,
    pub auth_type: AuthType,
    pub user: Option<String>,
}

/// The engine kind of a profile saved before kinds were recorded.
pub fn default_db_type() -> (r: DbType)
    ensures
        r == DbType::Mssql,
{
    DbType::Mssql
}

/// The profiles of a list whose name is not `name`, in order.
pub open spec fn without_name(list: Seq<SavedConnection>, name: Seq<char>) -> Seq<SavedConnection>
    decreases list.len(),
{
    if list.len() == 0 {
        seq![]
    } else {
        let rest = without_name(list.drop_last(), name);
        if list.last().name@ == name {
            rest
        } else {
            rest.push(list.last())
        }
    }
}

/// Removes every profile named `name`, keeping the order of the others.
pub fn remove_connection(list: Vec<SavedConnection>, name: &str) -> (r: Vec<SavedConnection>)
    ensures
        r@ == without_name(list@, name@),
{
    let key = String::from_str(name);
    let ghost ls = list@;
    let total = list.len();
    let mut rest = list;
    let mut out: Vec<SavedConnection> = Vec::new();
    let mut i: usize = 0;
    while rest.len() > 0
        invariant
            i + rest@.len() == ls.len(),
            ls.len() == total,
            key@ == name@,
            rest@ == ls.subrange(i as int, ls.len() as int),
            out@ == without_name(ls.subrange(0, i as int), name@),
        decreases rest@.len(),
    {
        let c = rest.remove(0);
        let ghost pre = ls.subrange(0, i + 1);
        proof {
            assert(c == ls[i as int]);
            assert(pre.drop_last() =~= ls.subrange(0, i as int));
            assert(rest@ =~= ls.subrange(i + 1, ls.len() as int));
        }
        if c.name != key {
            out.push(c);
        }
        i += 1;
    }
    proof {
        assert(ls.subrange(0, i as int) =~= ls);
    }
    out
}

/// Saves a profile: any profile of the same name is replaced, and the new
/// one goes last.
pub fn upsert_connection(list: Vec<SavedConnection>, conn: SavedConnection) -> (r: Vec<SavedConnection>)
    ensures
        r@ == without_name(list@, conn.name@).push(conn),
{
    let mut out = remove_connection(list, conn.name.as_str());
    out.push(conn);
    out
}

/// The file name that holds the saved profiles, with an optional suffix
/// before the extension (to keep separate lists apart).
pub open spec fn profiles_file_name(suffix: Option<Seq<char>>) -> Seq<char> {
    match suffix {
        Some(s) => "connections"@ + s + ".json"@,
        None => "connections.json"@,
    }
}

/// The file name that holds the saved profiles.
pub fn connections_file_name(suffix: Option<&str>) -> (r: String)
    ensures
        r@ == profiles_file_name(
            match suffix {
                Some(s) => Some(s@),
                None => None,
            },
        ),
{
    match suffix {
        Some(s) => {
            let mut out = String::from_str("connections");
            out.append(s);
            out.append(".json");
            out
        },
        None => String::from_str("connections.json"),
    }
}

/// What becomes of a profile's stored password when the profile is saved.
#[derive(Debug)]
pub enum PasswordAction {
    /// Store this password under the profile's name.
    Store(String),
    /// Remove any stored password: the profile authenticates by password but
    /// none was given.
    Delete,
    /// Leave the credential store alone.
    Keep,
}

/// A password given is stored; without one, a password-authenticated profile
/// has its stale password removed, and any other profile is left alone.
pub fn password_action(auth: AuthType, password: Option<String>) -> (r: PasswordAction)
    ensures
        password is Some ==> r == PasswordAction::Store(password->Some_0),
        password is None && auth == AuthType::Sql ==> r is Delete,
        password is None && auth == AuthType::Integrated ==> r is Keep,
{
    match password {
        Some(p) => PasswordAction::Store(p),
        None => match auth {
            AuthType::Sql => PasswordAction::Delete,
            AuthType::Integrated => PasswordAction::Keep,
        },
    }
}

/// What the credential store reported for a removal.
pub enum SecretRemoval {
    Removed,
    /// There was no secret to remove.
    NoEntry,
    Failed(String),
}

/// Removing a secret is idempotent: a missing secret counts as removed.
pub fn removal_result(outcome: SecretRemoval) -> (r: Result<(), Error>)
    ensures
        outcome is Failed ==> r is Err && r->Err_0 == Error::Storage(outcome->Failed_0),
        !(outcome is Failed) ==> r is Ok,
{
    match outcome {
        SecretRemoval::Removed => Ok(()),
        SecretRemoval::NoEntry => Ok(()),
        SecretRemoval::Failed(d) => Err(Error::Storage(d)),
    }
}

} // verus!
