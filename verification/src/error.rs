//! The errors that operations report, and the message shown for each.

use vstd::prelude::*;
use vstd::string::*;

verus! {

/// The four families of failure.
#[derive(Clone, Copy, Debug, PartialEq, Eq, Structural)]
pub enum ErrorKind {
    /// No connection is set.
    NotConnected,
    /// The request was refused before any statement was built from it.
    Validation,
    /// The database refused or failed a statement.
    Query,
    /// A fetched cell could not be turned into a value.
    Decode,
}

/// A failed operation.
#[derive(Clone, Debug, PartialEq, Eq)]
pub enum DbError {
    /// An operation was asked for while no connection was set.
    NotConnected,
    /// An insert was asked for with no column to set.
    EmptyInsert,
    /// An update was asked for with no column to set.
    EmptyUpdate,
    /// The named table is not among the tables of the connected schema.
    UnknownTable(String),
    /// The named column is not among the columns of the target table.
    UnknownColumn(String),
    /// The database reported a failure; the text is its own.
    Query(String),
    /// A cell could not be decoded; the text says why.
    Decode(String),
}

/// The mathematical form of a [`DbError`].
pub enum DbErrorView {
    NotConnected,
    EmptyInsert,
    EmptyUpdate,
    UnknownTable(Seq<char>),
    UnknownColumn(Seq<char>),
    Query(Seq<char>),
    Decode(Seq<char>),
}

impl View for DbError {
    type V = DbErrorView;

    open spec fn view(&self) -> DbErrorView {
        match self {
            DbError::NotConnected => DbErrorView::NotConnected,
            DbError::EmptyInsert => DbErrorView::EmptyInsert,
            DbError::EmptyUpdate => DbErrorView::EmptyUpdate,
            DbError::UnknownTable(name) => DbErrorView::UnknownTable(name@),
            DbError::UnknownColumn(name) => DbErrorView::UnknownColumn(name@),
            DbError::Query(text) => DbErrorView::Query(text@),
            DbError::Decode(text) => DbErrorView::Decode(text@),
        }
    }
}

impl DbErrorView {
    /// The family an error belongs to.
    pub open spec fn kind(self) -> ErrorKind {
        match self {
            DbErrorView::NotConnected => ErrorKind::NotConnected,
            DbErrorView::EmptyInsert => ErrorKind::Validation,
            DbErrorView::EmptyUpdate => ErrorKind::Validation,
            DbErrorView::UnknownTable(_) => ErrorKind::Validation,
            DbErrorView::UnknownColumn(_) => ErrorKind::Validation,
            DbErrorView::Query(_) => ErrorKind::Query,
            DbErrorView::Decode(_) => ErrorKind::Decode,
        }
    }

    /// The message shown to the caller.
    pub open spec fn message(self) -> Seq<char> {
        match self {
            DbErrorView::NotConnected => "Brak połączenia z bazą danych"@,
            DbErrorView::EmptyInsert => "Brak danych do wstawienia"@,
            DbErrorView::EmptyUpdate => "Brak danych do aktualizacji"@,
            DbErrorView::UnknownTable(name) => "Nieznana tabela: "@ + name,
            DbErrorView::UnknownColumn(name) => "Nieznana kolumna: "@ + name,
            DbErrorView::Query(text) => text,
            DbErrorView::Decode(text) => text,
        }
    }
}

impl DbError {
    /// The family this error belongs to.
    pub fn kind(&self) -> (k: ErrorKind)
        ensures
            k == self@.kind(),
    {
        match self {
            DbError::NotConnected => ErrorKind::NotConnected,
            DbError::EmptyInsert => ErrorKind::Validation,
            DbError::EmptyUpdate => ErrorKind::Validation,
            DbError::UnknownTable(_) => ErrorKind::Validation,
            DbError::UnknownColumn(_) => ErrorKind::Validation,
            DbError::Query(_) => ErrorKind::Query,
            DbError::Decode(_) => ErrorKind::Decode,
        }
    }

    /// The message shown to the caller.
    pub fn message(&self) -> (text: String)
        ensures
            text@ == self@.message(),
    {
        match self {
            DbError::NotConnected => String::from_str("Brak połączenia z bazą danych"),
            DbError::EmptyInsert => String::from_str("Brak danych do wstawienia"),
            DbError::EmptyUpdate => String::from_str("Brak danych do aktualizacji"),
            DbError::UnknownTable(name) => {
                let mut text = String::from_str("Nieznana tabela: ");
                text.append(name.as_str());
                text
            },
            DbError::UnknownColumn(name) => {
                let mut text = String::from_str("Nieznana kolumna: ");
                text.append(name.as_str());
                text
            },
            DbError::Query(text) => text.clone(),
            DbError::Decode(text) => text.clone(),
        }
    }
}

} // verus!
