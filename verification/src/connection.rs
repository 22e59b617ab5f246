//! Where a connection comes from and where the live one is kept.

use vstd::prelude::*;
use vstd::string::*;
use crate::error::{DbError, DbErrorView};
use crate::text::{decimal, push_decimal};

verus! {

/// The most connections a pool may hold open at once.
pub const MAX_CONNECTIONS: u32 = 5;

/// What is needed to reach a database.
#[derive(Clone, Debug, PartialEq, Eq)]
pub struct ConnectionDetails {
    pub host: String,
    pub port: u16,
    pub user: String,
    pub password: Option<String>,
    pub db_name: String,
}

/// The mathematical form of [`ConnectionDetails`].
pub struct ConnectionDetailsView {
    pub host: Seq<char>,
    pub port: u16,
    pub user: Seq<char>,
    pub password: Option<Seq<char>>,
    pub db_name: Seq<char>,
}

impl View for ConnectionDetails {
    type V = ConnectionDetailsView;

    open spec fn view(&self) -> ConnectionDetailsView {
        ConnectionDetailsView {
            host: self.host@,
            port: self.port,
            user: self.user@,
            password: match self.password {
                Some(password) => Some(password@),
                None => None,
            },
            db_name: self.db_name@,
        }
    }
}

/// The connection string for the given details. A missing password
/// is written as an empty one.
pub open spec fn connection_url(details: ConnectionDetailsView) -> Seq<char> {
    "mysql://"@ + details.user + ":"@ + match details.password {
        Some(password) => password,
        None => Seq::empty(),
    } + "@"@ + details.host + ":"@ + decimal(details.port as nat) + "/"@ + details.db_name
}

impl ConnectionDetails {
    /// Collects the details of a connection.
    pub fn new(
        host: String,
        port: u16,
        user: String,
        password: Option<String>,
        db_name: String,
    ) -> (details: ConnectionDetails)
        ensures
            details@ == (ConnectionDetailsView {
                host: host@,
                port,
                user: user@,
                password: match password {
                    Some(p) => Some(p@),
                    None => None,
                },
                db_name: db_name@,
            }),
    {
        ConnectionDetails { host, port, user, password, db_name }
    }

    /// The connection string for these details.
    pub fn url(&self) -> (url: String)
        ensures
            url@ == connection_url(self@),
    {
        let mut url = String::from_str("mysql://");
        url.append(self.user.as_str());
        url.append(":");
        match &self.password {
            Some(password) => {
                url.append(password.as_str());
            },
            None => {},
        }
        url.append("@");
        url.append(self.host.as_str());
        url.append(":");
        push_decimal(&mut url, self.port as u64);
        url.append("/");
        url.append(self.db_name.as_str());
        assert(url@ =~= connection_url(self@));
        url
    }
}

/// The slot that holds the live connection, if any. `P` is the handle
/// of a connection pool.
pub struct DbConnection<P> {
    pub pool: Option<P>,
}

impl<P> DbConnection<P> {
    /// A slot with no connection set.
    pub fn new() -> (slot: Self)
        ensures
            slot.pool is None,
    {
        DbConnection { pool: None }
    }

    /// Whether a connection is set.
    pub fn is_connected(&self) -> (connected: bool)
        ensures
            connected == self.pool is Some,
    {
        self.pool.is_some()
    }

    /// The live connection; fails where none is set.
    pub fn current(&self) -> (r: Result<&P, DbError>)
        ensures
            match r {
                Ok(pool) => self.pool == Some(*pool),
                Err(error) => self.pool is None && error@ == DbErrorView::NotConnected,
            },
    {
        match &self.pool {
            Some(pool) => Ok(pool),
            None => Err(DbError::NotConnected),
        }
    }
}

/// Sets `pool` as the live connection and hands back the one it
/// replaces, for the caller to close.
pub fn connect_db<P>(slot: &mut DbConnection<P>, pool: P) -> (replaced: Option<P>)
    ensures
        final(slot).pool == Some(pool),
        replaced == old(slot).pool,
{
    let mut next = Some(pool);
    std::mem::swap(&mut slot.pool, &mut next);
    next
}

/// Clears the slot and hands back the connection it held, for the
/// caller to close; nothing happens where none was set.
pub fn disconnect_db<P>(slot: &mut DbConnection<P>) -> (closed: Option<P>)
    ensures
        final(slot).pool is None,
        closed == old(slot).pool,
{
    let mut next = None;
    std::mem::swap(&mut slot.pool, &mut next);
    next
}

} // verus!
