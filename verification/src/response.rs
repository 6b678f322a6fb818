//! Classification of a delivery attempt's outcome: what the transport
//! reported, and whether the attempt succeeded, is absorbed as transient,
//! failed, or is fatal for the process.

use vstd::prelude::*;

use crate::numbers::{dec_digits, u64_to_dec};

verus! {

/// What the transport handed back for one delivery attempt: a completed
/// exchange with its status code and response body, or a transport-level
/// error (connection failure, timeout) with its description.
pub enum TransportResponse {
    Completed { status: u16, body: String },
    TransportError { detail: String },
}

/// How one delivery attempt ended. `Fatal` is deliberately unlike the other
/// variants: an authorization failure is unrecoverable, and the caller is
/// expected to let it propagate to process exit rather than retry.
pub enum DeliveryOutcome {
    /// The endpoint confirmed the payload: metrics may be reset.
    Success,
    /// The endpoint is temporarily unavailable; absorbed as a non-failure,
    /// but nothing is reset, and the next cycle tries again.
    TransientUnavailable,
    /// An authorization failure; intentionally not recoverable in-process.
    Fatal { detail: String },
    /// A failed delivery: reported, not retried within this attempt.
    Failure { detail: String },
}

/// The mathematical content of a [`DeliveryOutcome`].
pub enum OutcomeModel {
    Success,
    Transient,
    Fatal(Seq<char>),
    Failure(Seq<char>),
}

/// The outcome's content: the variant, with the detail text it carries.
pub open spec fn outcome_model(out: DeliveryOutcome) -> OutcomeModel {
    match out {
        DeliveryOutcome::Success => OutcomeModel::Success,
        DeliveryOutcome::TransientUnavailable => OutcomeModel::Transient,
        DeliveryOutcome::Fatal { detail } => OutcomeModel::Fatal(detail@),
        DeliveryOutcome::Failure { detail } => OutcomeModel::Failure(detail@),
    }
}

/// What parsing a response body yields: `None` when the body is not valid
/// JSON; otherwise the texts of its `status` and `error` fields, each absent
/// when the field is missing or not a string.
pub uninterp spec fn body_fields(body: Seq<char>) -> Option<(Option<Seq<char>>, Option<Seq<char>>)>;

/// Relies on `serde_json::from_str`, `Value::get` and `Value::as_str`: reads
/// the response body as a JSON document and extracts the string values of
/// its `status` and `error` fields. What comes back is a function of the
/// body text alone.
#[verifier::external_body]
fn parse_body_fields(body: &str) -> (r: Option<(Option<String>, Option<String>)>)
    ensures
        r is Some == body_fields(body@) is Some,
        r matches Some(v) ==> {
            &&& body_fields(body@) matches Some(w)
            &&& v.0 is Some == w.0 is Some
            &&& (v.0 matches Some(s) ==> w.0 == Some(s@))
            &&& v.1 is Some == w.1 is Some
            &&& (v.1 matches Some(s) ==> w.1 == Some(s@))
        },
{
    match serde_json::from_str::<serde_json::Value>(body) {
        Ok(doc) => {
            let status = doc.get("status").and_then(|s| s.as_str()).map(|s| s.to_owned());
            let error = doc.get("error").and_then(|e| e.as_str()).map(|e| e.to_owned());
            Some((status, error))
        }
        Err(_) => None,
    }
}

/// The verdict a parsed body gives: whether its `status` field is the
/// string `"ok"`, and the text of its `error` field (empty when absent).
pub open spec fn body_verdict(body: Seq<char>) -> Option<(bool, Seq<char>)> {
    match body_fields(body) {
        None => None,
        Some(f) => Some(
            (
                f.0 == Some("ok"@),
                match f.1 {
                    Some(e) => e,
                    None => Seq::<char>::empty(),
                },
            ),
        ),
    }
}

/// The generic detail used when a response carries no readable error.
pub open spec fn no_data_message() -> Seq<char> {
    "no data returned"@
}

/// The detail text of a declared failure: `FAILED <code>, <detail>`.
pub open spec fn failed_message(code: nat, detail: Seq<char>) -> Seq<char> {
    "FAILED "@ + dec_digits(code) + ", "@ + detail
}

/// The error detail a response body contributes: its `error` field when the
/// body parses, else the generic marker; an empty body never reaches the
/// parser.
pub open spec fn body_error_detail(body: Seq<char>) -> Seq<char> {
    if body.len() == 0 {
        no_data_message()
    } else {
        match body_verdict(body) {
            Some(v) => v.1,
            None => no_data_message(),
        }
    }
}

/// How a delivery attempt is classified. The status code is authoritative:
/// `200` succeeds exactly when the body's `status` field is `"ok"`, `403` is
/// fatal (carrying the body), `503` is absorbed as transient, and everything
/// else — any other code, a `200` without a confirming body, or a transport
/// error — is a failure with its detail text.
pub open spec fn classify(resp: TransportResponse) -> OutcomeModel {
    match resp {
        TransportResponse::TransportError { detail } => OutcomeModel::Failure(detail@),
        TransportResponse::Completed { status, body } => {
            if status == 200 {
                match body_verdict(body@) {
                    Some(v) => if v.0 {
                        OutcomeModel::Success
                    } else {
                        OutcomeModel::Failure(failed_message(200, v.1))
                    },
                    None => OutcomeModel::Failure(failed_message(200, no_data_message())),
                }
            } else if status == 403 {
                OutcomeModel::Fatal(body@)
            } else if status == 503 {
                OutcomeModel::Transient
            } else {
                OutcomeModel::Failure(failed_message(status as nat, body_error_detail(body@)))
            }
        },
    }
}

/// The string `no data returned`.
fn no_data_string() -> (s: String)
    ensures
        s@ == no_data_message(),
{
    "no data returned".to_owned()
}

/// Builds the detail text of a declared failure.
fn failed_message_string(code: u64, detail: &String) -> (s: String)
    ensures
        s@ == failed_message(code as nat, detail@),
{
    let mut s = "FAILED ".to_owned();
    s.append(u64_to_dec(code).as_str());
    s.append(", ");
    s.append(detail.as_str());
    proof {
        assert(s@ =~= failed_message(code as nat, detail@));
    }
    s
}

/// Computes the verdict of parsed body fields: whether `status` is `"ok"`,
/// and the error text (empty when absent).
fn verdict_of_fields(fields: (Option<String>, Option<String>)) -> (r: (bool, String))
    ensures
        r.0 == (match fields.0 {
            Some(s) => s@ == "ok"@,
            None => false,
        }),
        r.1@ == (match fields.1 {
            Some(e) => e@,
            None => Seq::<char>::empty(),
        }),
{
    let ok = match &fields.0 {
        Some(s) => *s == "ok".to_owned(),
        None => false,
    };
    let err = match fields.1 {
        Some(e) => e,
        None => String::new(),
    };
    (ok, err)
}

/// Classifies what the transport reported, exactly as [`classify`] states.
pub fn evaluate_response(resp: &TransportResponse) -> (out: DeliveryOutcome)
    ensures
        outcome_model(out) == classify(*resp),
{
    match resp {
        TransportResponse::TransportError { detail } => DeliveryOutcome::Failure {
            detail: detail.clone(),
        },
        TransportResponse::Completed { status, body } => {
            if *status == 200 {
                match parse_body_fields(body.as_str()) {
                    Some(fields) => {
                        let verdict = verdict_of_fields(fields);
                        if verdict.0 {
                            DeliveryOutcome::Success
                        } else {
                            DeliveryOutcome::Failure {
                                detail: failed_message_string(200, &verdict.1),
                            }
                        }
                    },
                    None => DeliveryOutcome::Failure {
                        detail: failed_message_string(200, &no_data_string()),
                    },
                }
            } else if *status == 403 {
                DeliveryOutcome::Fatal { detail: body.clone() }
            } else if *status == 503 {
                DeliveryOutcome::TransientUnavailable
            } else {
                let detail: String = if body.as_str().is_empty() {
                    no_data_string()
                } else {
                    match parse_body_fields(body.as_str()) {
                        Some(fields) => verdict_of_fields(fields).1,
                        None => no_data_string(),
                    }
                };
                DeliveryOutcome::Failure {
                    detail: failed_message_string(*status as u64, &detail),
                }
            }
        },
    }
}

} // verus!
