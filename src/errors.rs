//! Errors of a tracking request.
use vstd::prelude::*;

verus! {

/// Why a tracking request failed.
#[derive(Debug, Clone, Copy, PartialEq, Eq, Structural)]
pub enum ClientError {
    ParcelNotFound,
    Unauthorized,
    InvalidFormat,
    ServerError,
}

pub type ClientResult<T> = Result<T, ClientError>;

/// The message shown for each error.
pub open spec fn error_message(e: ClientError) -> Seq<char> {
    match e {
        ClientError::ParcelNotFound => "Parcel number could not be found"@,
        ClientError::Unauthorized => "Unauthorized, check your okapi key"@,
        ClientError::InvalidFormat => "The parcel number doesn't correspond to La Poste format"@,
        ClientError::ServerError => "Could not reach server or parse response"@,
    }
}

/// The error that an HTTP status code of a response stands for; `None` for
/// 200, the one status that carries a tracking report.
pub open spec fn error_of_status(status: u16) -> Option<ClientError> {
    if status == 200 {
        None
    } else if status == 400 {
        Some(ClientError::InvalidFormat)
    } else if status == 401 {
        Some(ClientError::Unauthorized)
    } else if status == 404 {
        Some(ClientError::ParcelNotFound)
    } else {
        Some(ClientError::ServerError)
    }
}

impl ClientError {
    /// A message that describes the error.
    pub fn message(&self) -> (r: &'static str)
        ensures
            r@ == error_message(*self),
    {
        match self {
            ClientError::ParcelNotFound => "Parcel number could not be found",
            ClientError::Unauthorized => "Unauthorized, check your okapi key",
            ClientError::InvalidFormat => "The parcel number doesn't correspond to La Poste format",
            ClientError::ServerError => "Could not reach server or parse response",
        }
    }

    /// The message as an owned string.
    pub fn to_string(&self) -> (r: String)
        ensures
            r@ == error_message(*self),
    {
        self.message().to_string()
    }

    /// Maps the HTTP status code of a response to the error it reports.
    pub fn check_status(status: u16) -> (r: ClientResult<()>)
        ensures
            r is Ok <==> error_of_status(status) is None,
            r is Err ==> Some(r->Err_0) == error_of_status(status),
    {
        match status {
            200 => Ok(()),
            400 => Err(ClientError::InvalidFormat),
            401 => Err(ClientError::Unauthorized),
            404 => Err(ClientError::ParcelNotFound),
            _ => Err(ClientError::ServerError),
        }
    }
}

} // verus!
