//! Requests to send and answers to judge.
//!
//! Nothing here touches the network. A request is a value that says what to
//! send; an exchange is a value that says what came back.

use vstd::prelude::*;
use crate::error::ClientError;
use crate::model::{Envelope, UpdateRequest, UpdateRequestView};

verus! {

/// The HTTP methods that the updater uses.
#[derive(Clone, Copy, Debug, PartialEq, Eq, Structural)]
pub enum Method {
    Get,
    Patch,
}

/// One HTTP request, ready to be sent.
#[derive(Debug)]
pub struct HttpRequest {
    pub method: Method,
    pub url: String,
    /// The value of the `Authorization` header, where the request carries one.
    pub authorization: Option<String>,
    /// The JSON body, where the request carries one.
    pub body: Option<UpdateRequest>,
}

/// A request as plain values.
pub struct HttpRequestView {
    pub method: Method,
    pub url: Seq<char>,
    pub authorization: Option<Seq<char>>,
    pub body: Option<UpdateRequestView>,
}

impl View for HttpRequest {
    type V = HttpRequestView;

    open spec fn view(&self) -> HttpRequestView {
        HttpRequestView {
            method: self.method,
            url: self.url@,
            authorization: match self.authorization {
                Some(value) => Some(value@),
                None => None,
            },
            body: match self.body {
                Some(body) => Some(body@),
                None => None,
            },
        }
    }
}

/// What came of sending a request to the provider's API.
#[derive(Debug)]
pub enum Exchange<T> {
    /// No response arrived: the connection failed or timed out.
    Unreachable,
    /// A response arrived.
    Answered {
        /// Its HTTP status code.
        status: u16,
        /// Its body, where that could be read as an envelope.
        body: Option<Envelope<T>>,
    },
}

impl<T: DeepView> DeepView for Exchange<T> {
    type V = Exchange<T::V>;

    open spec fn deep_view(&self) -> Exchange<T::V> {
        match self {
            Exchange::Unreachable => Exchange::Unreachable,
            Exchange::Answered { status, body } => Exchange::Answered {
                status: *status,
                body: body.deep_view(),
            },
        }
    }
}

/// Whether an HTTP status code stands for success.
pub open spec fn is_success_status(status: u16) -> bool {
    200 <= status < 300
}

/// Asks `reqwest::StatusCode`, which is the `StatusCode` of the `http` crate,
/// whether `status` is a success. Nothing of this is proved: `from_u16` is
/// taken to accept the codes from 100 to 999 and to refuse all others, and
/// `is_success` to hold of an accepted code from 200 to 299.
#[verifier::external_body]
fn classify_status(status: u16) -> (class: Option<bool>)
    ensures
        class == if 100 <= status <= 999 {
            Some(is_success_status(status))
        } else {
            None::<bool>
        },
{
    match reqwest::StatusCode::from_u16(status) {
        Ok(code) => Some(code.is_success()),
        Err(_) => None,
    }
}

/// Whether a response with this status code may be read further.
pub fn status_is_success(status: u16) -> (ok: bool)
    ensures
        ok == is_success_status(status),
{
    match classify_status(status) {
        Some(ok) => ok,
        None => false,
    }
}

/// What an exchange yields: the result inside the envelope, or the reason
/// why there is none. The status is judged first, then the envelope.
pub open spec fn judged<T>(exchange: Exchange<T>) -> Result<T, ClientError> {
    match exchange {
        Exchange::Unreachable => Err(ClientError::Transport),
        Exchange::Answered { status, body } => {
            if !is_success_status(status) {
                Err(ClientError::Transport)
            } else {
                match body {
                    None => Err(ClientError::Transport),
                    Some(envelope) => {
                        if envelope.success {
                            Ok(envelope.result)
                        } else {
                            Err(ClientError::ApiRejected)
                        }
                    },
                }
            }
        },
    }
}

/// Judges an exchange in two layers: the HTTP status must be a success, and
/// then the envelope must say so too. Either failure ends the judgement.
pub fn judge<T>(exchange: Exchange<T>) -> (outcome: Result<T, ClientError>)
    ensures
        outcome == judged(exchange),
{
    match exchange {
        Exchange::Unreachable => Err(ClientError::Transport),
        Exchange::Answered { status, body } => {
            if !status_is_success(status) {
                return Err(ClientError::Transport);
            }
            match body {
                None => Err(ClientError::Transport),
                Some(envelope) => {
                    if envelope.success {
                        Ok(envelope.result)
                    } else {
                        Err(ClientError::ApiRejected)
                    }
                },
            }
        },
    }
}

} // verus!
