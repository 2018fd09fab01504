use vstd::prelude::*;

verus! {

/// Which kind of failure an [`ArcaneVaultError`] stands for.
#[derive(Debug, Clone, PartialEq, Eq)]
pub enum ArcaneVaultErrorCode {
    /// The statement matched no record.
    NoData,
    /// No connection could be leased from the pool.
    PoolExhaustion,
    /// The pool could not be built from its settings.
    PoolCreationFailure,
    /// The store rejected the statement; carries the store's own code.
    InnerError(String),
}

/// A failure that crossed into the library, with its classification.
#[derive(Debug, Clone, PartialEq, Eq)]
pub struct ArcaneVaultError {
    pub message: String,
    pub code: Option<ArcaneVaultErrorCode>,
}

/// The SQLSTATE by which the store reports that no data was found.
pub open spec fn no_data_sqlstate() -> Seq<char> {
    seq!['0', '2', '0', '0', '0']
}

/// The code recorded for a store failure that carries no SQLSTATE.
pub open spec fn unknown_store_code() -> Seq<char> {
    "tokio postgres error"@
}

/// How a store failure with the given SQLSTATE is classified.
pub open spec fn classifies(code: ArcaneVaultErrorCode, sqlstate: Option<String>) -> bool {
    match sqlstate {
        Some(s) => if s@ == no_data_sqlstate() {
            code == ArcaneVaultErrorCode::NoData
        } else {
            code matches ArcaneVaultErrorCode::InnerError(c) && c@ == s@
        },
        None => code matches ArcaneVaultErrorCode::InnerError(c) && c@ == unknown_store_code(),
    }
}

/// Classifies a store failure by its SQLSTATE, if it has one.
pub fn classify_sqlstate(sqlstate: Option<String>) -> (r: ArcaneVaultErrorCode)
    ensures
        classifies(r, sqlstate),
{
    match sqlstate {
        Some(s) => {
            let no_data = String::from_str("02000");
            proof {
                reveal_strlit("02000");
            }
            assert(no_data@ == no_data_sqlstate());
            if s == no_data {
                ArcaneVaultErrorCode::NoData
            } else {
                ArcaneVaultErrorCode::InnerError(s)
            }
        },
        None => {
            let c = String::from_str("tokio postgres error");
            ArcaneVaultErrorCode::InnerError(c)
        },
    }
}


#[verifier::external_type_specification]
#[verifier::external_body]
pub struct ExStoreError(tokio_postgres::Error);

/// The SQLSTATE that the server reported with a store failure, if any.
pub uninterp spec fn sqlstate_of(err: tokio_postgres::Error) -> Option<String>;

/// The text by which the store driver describes a failure.
pub uninterp spec fn store_text_of(err: tokio_postgres::Error) -> Seq<char>;

/// Relies on tokio_postgres::Error::code and SqlState::code: the SQLSTATE
/// that the server reported with the failure, if it reported one; it is
/// read from the error alone.
#[verifier::external_body]
fn store_sqlstate(err: &tokio_postgres::Error) -> (r: Option<String>)
    ensures
        r == sqlstate_of(*err),
{
    match err.code() {
        Some(state) => Some(state.code().to_string()),
        None => None,
    }
}

/// Relies on the Display impl of tokio_postgres::Error: a readable account
/// of the failure, written from the error alone.
#[verifier::external_body]
fn store_message(err: &tokio_postgres::Error) -> (r: String)
    ensures
        r@ == store_text_of(*err),
{
    err.to_string()
}

/// The classification as the error's text writes it: the variant's name,
/// with an inner code written in double quotes.
pub open spec fn code_text(code: Option<ArcaneVaultErrorCode>) -> Seq<char> {
    match code {
        None => "None"@,
        Some(ArcaneVaultErrorCode::NoData) => "Some(NoData)"@,
        Some(ArcaneVaultErrorCode::PoolExhaustion) => "Some(PoolExhaustion)"@,
        Some(ArcaneVaultErrorCode::PoolCreationFailure) => "Some(PoolCreationFailure)"@,
        Some(ArcaneVaultErrorCode::InnerError(c)) => "Some(InnerError(\""@ + c@ + "\"))"@,
    }
}

impl ArcaneVaultError {
    /// Whether this error says that the statement matched no record.
    pub open spec fn is_no_data_spec(&self) -> bool {
        self.code == Some(ArcaneVaultErrorCode::NoData)
    }

    pub fn is_no_data(&self) -> (r: bool)
        ensures
            r == self.is_no_data_spec(),
    {
        match &self.code {
            Some(ArcaneVaultErrorCode::NoData) => true,
            _ => false,
        }
    }

    /// A store failure with the given SQLSTATE and description.
    pub fn from_store_fault(sqlstate: Option<String>, message: String) -> (r: Self)
        ensures
            r.message == message,
            r.code matches Some(c) && classifies(c, sqlstate),
    {
        ArcaneVaultError { message, code: Some(classify_sqlstate(sqlstate)) }
    }

    /// A failure reported by the store driver, classified by its SQLSTATE.
    pub fn from_store_error(err: tokio_postgres::Error) -> (r: Self)
        ensures
            r.code matches Some(c) && classifies(c, sqlstate_of(err)),
            r.message@ == store_text_of(err),
    {
        let sqlstate = store_sqlstate(&err);
        let message = store_message(&err);
        Self::from_store_fault(sqlstate, message)
    }

    /// The store answered a single-record statement with no record.
    pub fn no_data() -> (r: Self)
        ensures
            r.is_no_data_spec(),
    {
        ArcaneVaultError {
            message: String::from_str("query returned no rows"),
            code: Some(ArcaneVaultErrorCode::NoData),
        }
    }

    /// No connection could be leased from the pool.
    pub fn pool_exhaustion(message: String) -> (r: Self)
        ensures
            r.message == message,
            r.code == Some(ArcaneVaultErrorCode::PoolExhaustion),
    {
        ArcaneVaultError { message, code: Some(ArcaneVaultErrorCode::PoolExhaustion) }
    }

    /// What a caller outside the service is told of this error: its kind,
    /// never the store's own codes or messages.
    pub open spec fn caller_message_spec(&self) -> Seq<char> {
        match self.code {
            Some(ArcaneVaultErrorCode::NoData) => "no data found"@,
            Some(ArcaneVaultErrorCode::PoolExhaustion) => "service unavailable"@,
            Some(ArcaneVaultErrorCode::PoolCreationFailure) => "service unavailable"@,
            _ => "internal error"@,
        }
    }

    pub fn caller_message(&self) -> (r: String)
        ensures
            r@ == self.caller_message_spec(),
    {
        match &self.code {
            Some(ArcaneVaultErrorCode::NoData) => String::from_str("no data found"),
            Some(ArcaneVaultErrorCode::PoolExhaustion) => String::from_str("service unavailable"),
            Some(ArcaneVaultErrorCode::PoolCreationFailure) => String::from_str("service unavailable"),
            _ => String::from_str("internal error"),
        }
    }

    /// The caller cancelled the operation before it ended.
    pub fn cancelled() -> (r: Self)
        ensures
            r.message@ == "operation cancelled"@,
            r.code is None,
    {
        ArcaneVaultError { message: String::from_str("operation cancelled"), code: None }
    }

    /// The error as one line of text: a fixed prefix, the message, and the
    /// classification.
    pub open spec fn text_spec(&self) -> Seq<char> {
        "arcane-vault error: "@ + self.message@ + " "@ + code_text(self.code)
    }

    pub fn text(&self) -> (r: String)
        ensures
            r@ == self.text_spec(),
    {
        let mut s = String::from_str("arcane-vault error: ");
        s.append(self.message.as_str());
        s.append(" ");
        match &self.code {
            None => s.append("None"),
            Some(ArcaneVaultErrorCode::NoData) => s.append("Some(NoData)"),
            Some(ArcaneVaultErrorCode::PoolExhaustion) => s.append("Some(PoolExhaustion)"),
            Some(ArcaneVaultErrorCode::PoolCreationFailure) => s.append("Some(PoolCreationFailure)"),
            Some(ArcaneVaultErrorCode::InnerError(c)) => {
                s.append("Some(InnerError(\"");
                s.append(c.as_str());
                s.append("\"))");
            },
        }
        s
    }

    /// The connection pool could not be created.
    pub fn pool_creation_failure(message: String) -> (r: Self)
        ensures
            r.message == message,
            r.code == Some(ArcaneVaultErrorCode::PoolCreationFailure),
    {
        ArcaneVaultError { message, code: Some(ArcaneVaultErrorCode::PoolCreationFailure) }
    }
}

} // verus!
