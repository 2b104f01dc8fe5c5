//! Failures of the database and the status codes a caller sees.
use vstd::prelude::*;
use vstd::string::StringExecFns;

use maxminddb::MaxMindDBError;

verus! {

/// A failure reported by the database reader, with its message.
pub enum DbError {
    AddressNotFound(String),
    InvalidNetwork(String),
    InvalidDatabase(String),
    Io(String),
    Mapping(String),
    Decoding(String),
}

/// The library's error for a failure that the reader reported.
pub open spec fn db_error_spec(e: MaxMindDBError) -> DbError {
    match e {
        MaxMindDBError::AddressNotFoundError(m) => DbError::AddressNotFound(m),
        MaxMindDBError::InvalidNetworkError(m) => DbError::InvalidNetwork(m),
        MaxMindDBError::InvalidDatabaseError(m) => DbError::InvalidDatabase(m),
        MaxMindDBError::IoError(m) => DbError::Io(m),
        MaxMindDBError::MapError(m) => DbError::Mapping(m),
        MaxMindDBError::DecodingError(m) => DbError::Decoding(m),
    }
}

impl DbError {
    /// Takes over a failure of the reader, variant for variant.
    pub fn from_reader(e: MaxMindDBError) -> (r: DbError)
        ensures
            r == db_error_spec(e),
    {
        match e {
            MaxMindDBError::AddressNotFoundError(m) => DbError::AddressNotFound(m),
            MaxMindDBError::InvalidNetworkError(m) => DbError::InvalidNetwork(m),
            MaxMindDBError::InvalidDatabaseError(m) => DbError::InvalidDatabase(m),
            MaxMindDBError::IoError(m) => DbError::Io(m),
            MaxMindDBError::MapError(m) => DbError::Mapping(m),
            MaxMindDBError::DecodingError(m) => DbError::Decoding(m),
        }
    }
}

/// The kind of failure a caller is told of.
#[derive(PartialEq, Eq, Structural, Clone, Copy, Debug)]
pub enum StatusCode {
    InvalidArgument,
    NotFound,
    Internal,
}

/// A failed request: its kind and a message.
pub struct Status {
    pub code: StatusCode,
    pub message: String,
}

/// The status kind a database failure maps to: a missing address is
/// `NotFound`, every structural or I/O failure is `Internal`.
pub open spec fn code_of(err: DbError) -> StatusCode {
    match err {
        DbError::AddressNotFound(_) => StatusCode::NotFound,
        _ => StatusCode::Internal,
    }
}

/// The message a database failure carries.
pub open spec fn message_of(err: DbError) -> Seq<char> {
    match err {
        DbError::AddressNotFound(m) => m@,
        DbError::InvalidNetwork(m) => m@,
        DbError::InvalidDatabase(m) => m@,
        DbError::Io(m) => m@,
        DbError::Mapping(m) => m@,
        DbError::Decoding(m) => m@,
    }
}

/// A database failure maps to `NotFound` exactly when the address was not in
/// the database, and never to `InvalidArgument`, which only malformed address
/// text earns; every other failure is `Internal`.
pub proof fn lemma_error_kinds(err: DbError)
    ensures
        code_of(err) == StatusCode::NotFound <==> err is AddressNotFound,
        code_of(err) != StatusCode::InvalidArgument,
        !(err is AddressNotFound) ==> code_of(err) == StatusCode::Internal,
{
}

/// The text put before the offending input when an address does not parse.
pub open spec fn invalid_address_prefix() -> Seq<char> {
    "The request must be IP address but given '"@
}

/// The message of the status for an input that is not an IP address.
pub open spec fn invalid_address_message(ip: Seq<char>) -> Seq<char> {
    invalid_address_prefix() + ip + "'"@
}

/// Maps a database failure to the status the caller sees, keeping its message.
pub fn convert_error(err: DbError) -> (r: Status)
    ensures
        r.code == code_of(err),
        r.message@ == message_of(err),
{
    match err {
        DbError::AddressNotFound(m) => Status { code: StatusCode::NotFound, message: m },
        DbError::InvalidNetwork(m) => Status { code: StatusCode::Internal, message: m },
        DbError::InvalidDatabase(m) => Status { code: StatusCode::Internal, message: m },
        DbError::Io(m) => Status { code: StatusCode::Internal, message: m },
        DbError::Mapping(m) => Status { code: StatusCode::Internal, message: m },
        DbError::Decoding(m) => Status { code: StatusCode::Internal, message: m },
    }
}

/// The status for an input that is not an IP address; it names the input.
pub fn invalid_address(ip: &str) -> (r: Status)
    ensures
        r.code == StatusCode::InvalidArgument,
        r.message@ == invalid_address_message(ip@),
{
    let mut message = String::from_str("The request must be IP address but given '");
    message.append(ip);
    message.append("'");
    Status { code: StatusCode::InvalidArgument, message }
}

} // verus!
