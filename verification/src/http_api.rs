//! The HTTP boundary's data: request and response bodies, the API error
//! taxonomy, and the mapping from domain errors onto it. Decoding and
//! encoding of the wire format, and the server itself, live outside the
//! library; everything here is plain data with exact contracts.

use vstd::prelude::*;
use vstd::string::StringExecFns;

use crate::refresh_token::CreateRefreshTokenError;
use crate::refresh_token::CreateRefreshTokenRequest;
use crate::refresh_token::RefreshToken;
use crate::tokens::SerialNumber;
use crate::tokens::SerialNumberEmptyError;
use crate::tokens::TokenEmptyError;
use crate::tokens::trim_spec;

verus! {

/// Where the HTTP server listens.
#[derive(Debug, Clone, PartialEq, Eq)]
pub struct HttpServerConfig<'a> {
    pub port: &'a str,
}

/// The process environment the server is configured from.
#[derive(Debug, Clone)]
pub struct Env {
    pub database_url: String,
    pub port: String,
}

/// What a failed API call reports: an internal failure, its cause kept
/// server-side, or a request the caller can mend.
#[derive(Debug)]
pub enum ApiError {
    InternalServerError(String),
    UnprocessableEntity(String),
}

impl ApiError {
    /// Maps a token-issuance failure onto the API taxonomy: a duplicate
    /// row is the caller's to mend; everything else collapses to an
    /// internal error whose cause is not echoed to the caller.
    pub fn from_create_refresh_token_error(e: &CreateRefreshTokenError) -> (r: ApiError)
        ensures
            (match e {
                CreateRefreshTokenError::Duplicate { name } => r matches
                    ApiError::UnprocessableEntity(m) && m@ == "Refresh token with serial number "@
                    + name@ + " already exists"@,
                _ => r matches ApiError::InternalServerError(m) && m@
                    == "Internal server error"@,
            }),
    {
        match e {
            CreateRefreshTokenError::Duplicate { name } => {
                let mut message = String::from_str("Refresh token with serial number ");
                message.append(name.as_str());
                message.append(" already exists");
                ApiError::UnprocessableEntity(message)
            },
            _ => ApiError::InternalServerError(String::from_str("Internal server error")),
        }
    }

    /// Maps a malformed request body onto the API taxonomy: the caller can
    /// mend it, and is told which value was empty.
    pub fn from_parse_error(e: &ParseCreateRefreshTokenHttpRequestBodyError) -> (r: ApiError)
        ensures
            (match e {
                ParseCreateRefreshTokenHttpRequestBodyError::SerialNumber(_) => r matches
                    ApiError::UnprocessableEntity(m) && m@ == "Serial number cannot be empty"@,
                ParseCreateRefreshTokenHttpRequestBodyError::Token(_) => r matches
                    ApiError::UnprocessableEntity(m) && m@ == "Token cannot be empty"@,
            }),
    {
        match e {
            ParseCreateRefreshTokenHttpRequestBodyError::SerialNumber(_) => {
                ApiError::UnprocessableEntity(String::from_str("Serial number cannot be empty"))
            },
            ParseCreateRefreshTokenHttpRequestBodyError::Token(_) => {
                ApiError::UnprocessableEntity(String::from_str("Token cannot be empty"))
            },
        }
    }

    /// The HTTP status this error answers with.
    pub fn status_code(&self) -> (r: u16)
        ensures
            (match self {
                ApiError::InternalServerError(_) => r == 500,
                ApiError::UnprocessableEntity(_) => r == 422,
            }),
    {
        match self {
            ApiError::InternalServerError(_) => 500,
            ApiError::UnprocessableEntity(_) => 422,
        }
    }

    /// The message the response body carries: an internal cause is never
    /// echoed verbatim to the caller.
    pub fn response_message(&self) -> (r: String)
        ensures
            (match self {
                ApiError::InternalServerError(_) => r@ == "Internal server error"@,
                ApiError::UnprocessableEntity(m) => r@ == m@,
            }),
    {
        match self {
            ApiError::InternalServerError(_) => String::from_str("Internal server error"),
            ApiError::UnprocessableEntity(message) => message.clone(),
        }
    }
}

/// The response data format for all error responses.
#[derive(Debug, Clone)]
pub struct ApiErrorData {
    pub message: String,
}

/// The body every API response carries: the status repeated, and the data.
#[derive(Debug, Clone, PartialEq, Eq)]
pub struct ApiResponseBody<T> {
    status_code: u16,
    data: T,
}

impl<T> ApiResponseBody<T> {
    /// The status the body repeats.
    pub closed spec fn spec_status_code(&self) -> u16 {
        self.status_code
    }

    /// The data the body carries.
    pub closed spec fn spec_data(&self) -> T {
        self.data
    }

    pub fn new(status_code: u16, data: T) -> (r: Self)
        ensures
            r.spec_status_code() == status_code,
            r.spec_data() == data,
    {
        Self { status_code, data }
    }

    pub fn status_code(&self) -> (r: u16)
        ensures
            r == self.spec_status_code(),
    {
        self.status_code
    }

    pub fn data(&self) -> (r: &T)
        ensures
            *r == self.spec_data(),
    {
        &self.data
    }
}

impl ApiResponseBody<ApiErrorData> {
    pub fn new_error(status_code: u16, message: String) -> (r: Self)
        ensures
            r.spec_status_code() == status_code,
            r.spec_data().message@ == message@,
    {
        Self { status_code, data: ApiErrorData { message } }
    }
}

/// A refresh token value, as a response body carries it.
#[derive(Debug, Clone, PartialEq, Eq)]
pub struct CreateRefreshTokenRequestBody {
    #[allow(dead_code)]
    token: String,
}

/// The decimal digits of `n`.
pub open spec fn dec_digit(v: int) -> char {
    if v == 0 {
        '0'
    } else if v == 1 {
        '1'
    } else if v == 2 {
        '2'
    } else if v == 3 {
        '3'
    } else if v == 4 {
        '4'
    } else if v == 5 {
        '5'
    } else if v == 6 {
        '6'
    } else if v == 7 {
        '7'
    } else if v == 8 {
        '8'
    } else {
        '9'
    }
}

/// The decimal form of a non-negative number.
pub open spec fn dec_str(n: int) -> Seq<char>
    decreases n,
{
    if n < 10 {
        seq![dec_digit(n)]
    } else {
        dec_str(n / 10) + seq![dec_digit(n % 10)]
    }
}

/// The one-character string of a decimal digit.
fn dec_digit_str(v: u128) -> (r: &'static str)
    requires
        v < 10,
    ensures
        r@ == seq![dec_digit(v as int)],
{
    let r: &'static str = match v {
        0 => "0",
        1 => "1",
        2 => "2",
        3 => "3",
        4 => "4",
        5 => "5",
        6 => "6",
        7 => "7",
        8 => "8",
        _ => "9",
    };
    proof {
        reveal_strlit("0");
        reveal_strlit("1");
        reveal_strlit("2");
        reveal_strlit("3");
        reveal_strlit("4");
        reveal_strlit("5");
        reveal_strlit("6");
        reveal_strlit("7");
        reveal_strlit("8");
        reveal_strlit("9");
        assert(r@ =~= seq![dec_digit(v as int)]);
    }
    r
}

/// Appends the decimal form of `n` to `out`.
fn append_dec(out: &mut String, n: u128)
    ensures
        final(out)@ == old(out)@ + dec_str(n as int),
    decreases n,
{
    if n >= 10 {
        append_dec(out, n / 10);
    }
    out.append(dec_digit_str(n % 10));
    proof {
        if n >= 10 {
            assert(old(out)@ + dec_str(n as int / 10) + seq![dec_digit(n as int % 10)] =~= old(
                out,
            )@ + dec_str(n as int));
        } else {
            assert(old(out)@ + seq![dec_digit(n as int)] =~= old(out)@ + dec_str(n as int));
        }
    }
}

/// What a successful token issuance answers with: the identity of the new
/// refresh-token row, in decimal form.
#[derive(Debug, Clone, PartialEq, Eq)]
pub struct CreateRefreshTokenResponseData {
    id: String,
}

impl CreateRefreshTokenResponseData {
    /// The identity the response carries.
    pub closed spec fn spec_id(&self) -> Seq<char> {
        self.id@
    }

    /// Builds the response data for a freshly issued refresh-token row.
    pub fn of_refresh_token(refresh_token: &RefreshToken) -> (r: Self)
        ensures
            r.spec_id() == dec_str(refresh_token.id as int),
    {
        let mut id = String::new();
        append_dec(&mut id, refresh_token.id);
        Self { id }
    }

    pub fn id(&self) -> (r: &str)
        ensures
            r@ == self.spec_id(),
    {
        self.id.as_str()
    }
}

/// The body of a token-issuance request, as decoded at the HTTP boundary.
#[derive(Debug, Clone, PartialEq, Eq)]
pub struct CreateRefreshTokenHttpRequestBody {
    username: String,
    password: String,
    serial_number: String,
}

/// Why a token-issuance request body was rejected before any work.
#[derive(Debug)]
pub enum ParseCreateRefreshTokenHttpRequestBodyError {
    SerialNumber(SerialNumberEmptyError),
    Token(TokenEmptyError),
}

impl CreateRefreshTokenHttpRequestBody {
    /// The account name the body carries.
    pub closed spec fn spec_username(&self) -> Seq<char> {
        self.username@
    }

    /// The account password the body carries.
    pub closed spec fn spec_password(&self) -> Seq<char> {
        self.password@
    }

    /// The raw serial number the body carries.
    pub closed spec fn spec_serial_number(&self) -> Seq<char> {
        self.serial_number@
    }

    pub fn new(username: String, password: String, serial_number: String) -> (r: Self)
        ensures
            r.spec_username() == username@,
            r.spec_password() == password@,
            r.spec_serial_number() == serial_number@,
    {
        Self { username, password, serial_number }
    }

    /// Validation at the boundary: an empty or whitespace-only serial
    /// number is rejected here, before any side effect; otherwise the body
    /// becomes a domain request carrying the trimmed serial number.
    pub fn try_into_domain(self) -> (r: Result<
        CreateRefreshTokenRequest,
        ParseCreateRefreshTokenHttpRequestBodyError,
    >)
        ensures
            trim_spec(self.spec_serial_number()).len() == 0 ==> (r matches Err(
                ParseCreateRefreshTokenHttpRequestBodyError::SerialNumber(_),
            )),
            trim_spec(self.spec_serial_number()).len() > 0 ==> (r matches Ok(req) && {
                &&& req.spec_username() == self.spec_username()
                &&& req.spec_password() == self.spec_password()
                &&& req.spec_serial_number() == trim_spec(self.spec_serial_number())
            }),
    {
        let serial_number = match SerialNumber::new(self.serial_number.as_str()) {
            Ok(s) => s,
            Err(e) => {
                return Err(ParseCreateRefreshTokenHttpRequestBodyError::SerialNumber(e));
            },
        };
        Ok(CreateRefreshTokenRequest::new(self.username, self.password, serial_number))
    }
}

/// What a refresh-token lookup answers with.
#[derive(Debug, Clone, PartialEq, Eq)]
pub struct GetRefreshTokenResponseData {
    pub refresh_token: String,
}

/// The body of an RFID-refresh request, as decoded at the HTTP boundary.
#[derive(Debug, Clone, PartialEq, Eq)]
pub struct SyncFilamentHttpRequestBody {
    tray_id: String,
    device_id: String,
}

impl SyncFilamentHttpRequestBody {
    /// The tray slot the body names.
    pub closed spec fn spec_tray_id(&self) -> Seq<char> {
        self.tray_id@
    }

    /// The device the body names.
    pub closed spec fn spec_device_id(&self) -> Seq<char> {
        self.device_id@
    }

    pub fn new(tray_id: String, device_id: String) -> (r: Self)
        ensures
            r.spec_tray_id() == tray_id@,
            r.spec_device_id() == device_id@,
    {
        Self { tray_id, device_id }
    }

    pub fn tray_id(&self) -> (r: &str)
        ensures
            r@ == self.spec_tray_id(),
    {
        self.tray_id.as_str()
    }

    pub fn device_id(&self) -> (r: &str)
        ensures
            r@ == self.spec_device_id(),
    {
        self.device_id.as_str()
    }
}

} // verus!
