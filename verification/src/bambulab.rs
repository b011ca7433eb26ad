//! The BambuLab vendor adapters' pure half: reading the credential pair
//! out of a sign-in response's set-cookie headers, and building the topic
//! and JSON envelope of the RFID-refresh command. The network transports —
//! the HTTP client that signs in and the broker session that publishes —
//! live with the callers of these functions.

use vstd::prelude::*;
use vstd::string::StringExecFns;

use crate::json::json_escaped;
use crate::json::append_json_escaped;
use crate::tokens::CreateTokensError;
use crate::tokens::str_eq;
use crate::tokens::Token;
use crate::tokens::Tokens;
use crate::tokens::trim_spec;

verus! {

/// The name and value that `cookie::Cookie::parse` reads out of one
/// cookie-header string, if the string parses; both depend on the string
/// alone.
pub uninterp spec fn cookie_pair(s: Seq<char>) -> Option<(Seq<char>, Seq<char>)>;

/// Relies on cookie::Cookie::parse: parses one HTTP cookie header value,
/// without percent-decoding, and hands out the cookie's name and value.
#[verifier::external_body]
fn parse_cookie_pair(s: &str) -> (r: Option<(String, String)>)
    ensures
        (match r {
            Some(p) => cookie_pair(s@) matches Some(q) && q.0 == p.0@ && q.1 == p.1@,
            None => cookie_pair(s@) is None,
        }),
{
    match cookie::Cookie::parse(s) {
        Ok(c) => Some((c.name().to_string(), c.value().to_string())),
        Err(_) => None,
    }
}

/// The value of the first header string that parses as a cookie named
/// `name`.
pub open spec fn cookie_value_in(headers: Seq<Seq<char>>, name: Seq<char>) -> Option<Seq<char>>
    decreases headers.len(),
{
    if headers.len() == 0 {
        None
    } else {
        match cookie_pair(headers[0]) {
            Some(p) => if p.0 == name {
                Some(p.1)
            } else {
                cookie_value_in(headers.drop_first(), name)
            },
            None => cookie_value_in(headers.drop_first(), name),
        }
    }
}

/// The credential pair, as (access, refresh), that a sign-in response
/// carries in its set-cookie headers: the refresh token under the cookie
/// named `refreshToken`, the access token under `token`, both trimmed. A
/// missing cookie is the provider's failure; an empty or whitespace-only
/// one is an invalid token.
pub open spec fn credentials_of(headers: Seq<Seq<char>>) -> Result<
    (Seq<char>, Seq<char>),
    CreateTokensError,
> {
    match cookie_value_in(headers, "refreshToken"@) {
        None => Err(CreateTokensError::ProviderError),
        Some(refresh) => match cookie_value_in(headers, "token"@) {
            None => Err(CreateTokensError::ProviderError),
            Some(access) => if trim_spec(refresh).len() == 0 {
                Err(CreateTokensError::InvalidToken)
            } else if trim_spec(access).len() == 0 {
                Err(CreateTokensError::InvalidToken)
            } else {
                Ok((trim_spec(access), trim_spec(refresh)))
            },
        },
    }
}

/// Authentication against the BambuLab cloud: the sign-in endpoint and the
/// extraction of the issued credential pair from its response cookies. The
/// HTTP round-trip itself is the transport's affair.
#[derive(Debug)]
pub struct BambuLabProviderTokenService {
    #[allow(dead_code)]
    api_url: String,
    login_url: String,
}

impl BambuLabProviderTokenService {
    /// The sign-in endpoint this service was configured with.
    pub closed spec fn spec_login_url(&self) -> Seq<char> {
        self.login_url@
    }

    pub fn new(api_url: String, login_url: String) -> (r: Self)
        ensures
            r.spec_login_url() == login_url@,
    {
        Self { api_url, login_url }
    }

    pub fn login_url(&self) -> (r: &str)
        ensures
            r@ == self.spec_login_url(),
    {
        self.login_url.as_str()
    }

    /// The value of the cookie named `cookie_name` among the set-cookie
    /// header values of a response, if one of them parses to that name.
    pub fn extract_token_from_cookie(headers: &Vec<String>, cookie_name: &str) -> (r: Option<
        String,
    >)
        ensures
            (match r {
                Some(v) => cookie_value_in(headers.deep_view(), cookie_name@) matches Some(q) && q
                    == v@,
                None => cookie_value_in(headers.deep_view(), cookie_name@) is None,
            }),
    {
        let n = headers.len();
        let mut i: usize = 0;
        proof {
            assert(headers.deep_view().skip(0) =~= headers.deep_view());
        }
        while i < n
            invariant
                i <= n,
                n == headers@.len(),
                cookie_value_in(headers.deep_view(), cookie_name@) == cookie_value_in(
                    headers.deep_view().skip(i as int),
                    cookie_name@,
                ),
            decreases n - i,
        {
            proof {
                assert(headers.deep_view().skip(i as int)[0] == headers@[i as int]@);
                assert(headers.deep_view().skip(i as int).drop_first() =~= headers.deep_view()
                    .skip(i + 1));
            }
            match parse_cookie_pair(headers[i].as_str()) {
                Some(pair) => {
                    if str_eq(pair.0.as_str(), cookie_name) {
                        return Some(pair.1);
                    }
                },
                None => {},
            }
            i += 1;
        }
        proof {
            assert(headers.deep_view().skip(n as int) =~= Seq::<Seq<char>>::empty());
        }
        None
    }

    /// Reads the credential pair out of the set-cookie header values of a
    /// sign-in response.
    pub fn tokens_from_response_cookies(headers: &Vec<String>) -> (r: Result<
        Tokens,
        CreateTokensError,
    >)
        ensures
            (match r {
                Ok(t) => credentials_of(headers.deep_view()) matches Ok(p) && p.0
                    == t.access_token@ && p.1 == t.refresh_token@,
                Err(e) => credentials_of(headers.deep_view()) matches Err(f) && e == f,
            }),
    {
        let refresh_value = match Self::extract_token_from_cookie(headers, "refreshToken") {
            Some(v) => v,
            None => {
                return Err(CreateTokensError::ProviderError);
            },
        };
        let access_value = match Self::extract_token_from_cookie(headers, "token") {
            Some(v) => v,
            None => {
                return Err(CreateTokensError::ProviderError);
            },
        };
        let refresh_token = match Token::new(refresh_value.as_str()) {
            Ok(t) => t,
            Err(_) => {
                return Err(CreateTokensError::InvalidToken);
            },
        };
        let access_token = match Token::new(access_value.as_str()) {
            Ok(t) => t,
            Err(_) => {
                return Err(CreateTokensError::InvalidToken);
            },
        };
        Ok(Tokens { access_token, refresh_token })
    }
}

/// The topic an RFID-refresh request for a device is published to.
pub open spec fn request_topic_spec(device_id: Seq<char>) -> Seq<char> {
    "device/"@ + device_id + "/request"@
}

/// The printer command parameter that refreshes the RFID tag of one tray
/// slot.
pub open spec fn refresh_param_spec(tray_id: Seq<char>) -> Seq<char> {
    "M620 R"@ + tray_id + " \n"@
}

/// The vendor JSON envelope that carries the command.
pub open spec fn refresh_payload_spec(tray_id: Seq<char>) -> Seq<char> {
    "{\"print\":{\"command\":\"gcode_line\",\"param\":\""@ + json_escaped(
        refresh_param_spec(tray_id),
    ) + "\",\"sequence_id\":\"0\"}}"@
}

/// Dispatch of RFID-refresh commands to BambuLab devices: builds the
/// per-device topic and the JSON envelope. Publishing them over the broker
/// session is the transport's affair.
#[derive(Debug)]
pub struct BambuLabProviderAmsService {
    broker_url: String,
}

impl BambuLabProviderAmsService {
    /// The broker this service was configured with.
    pub closed spec fn spec_broker_url(&self) -> Seq<char> {
        self.broker_url@
    }

    pub fn new(broker_url: String) -> (r: Self)
        ensures
            r.spec_broker_url() == broker_url@,
    {
        Self { broker_url }
    }

    pub fn broker_url(&self) -> (r: &str)
        ensures
            r@ == self.spec_broker_url(),
    {
        self.broker_url.as_str()
    }

    /// The topic an RFID-refresh request for `device_id` goes to.
    pub fn request_topic(device_id: &str) -> (r: String)
        ensures
            r@ == request_topic_spec(device_id@),
    {
        let mut topic = String::from_str("device/");
        topic.append(device_id);
        topic.append("/request");
        topic
    }

    /// The JSON envelope of the RFID-refresh command for `tray_id`.
    pub fn refresh_rfid_payload(tray_id: &str) -> (r: String)
        ensures
            r@ == refresh_payload_spec(tray_id@),
    {
        let mut param = String::from_str("M620 R");
        param.append(tray_id);
        param.append(" \n");
        let mut payload = String::from_str("{\"print\":{\"command\":\"gcode_line\",\"param\":\"");
        append_json_escaped(&mut payload, param.as_str());
        payload.append("\",\"sequence_id\":\"0\"}}");
        payload
    }
}

} // verus!
