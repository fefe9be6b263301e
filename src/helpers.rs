use vstd::prelude::*;
use vstd::string::*;

use crate::errors::{ApiErrorResponse, ErrorField};
use crate::types::{MandateTxnType, PaymentIdType, PaymentMethodType, PaymentsRequest};

verus! {

impl PaymentIdType {
    /// The intent id that this identifier names, if it names one directly.
    pub open spec fn intent_id_spec(&self) -> Option<Seq<char>> {
        match self {
            PaymentIdType::PaymentIntentId(s) => Some(s@),
            _ => None,
        }
    }

    pub fn get_payment_intent_id(&self) -> (r: Result<String, ApiErrorResponse>)
        ensures
            match self.intent_id_spec() {
                Some(s) => r.is_ok() && r->Ok_0@ == s,
                None => r == Err::<String, ApiErrorResponse>(ApiErrorResponse::PaymentNotFound),
            },
    {
        match self {
            PaymentIdType::PaymentIntentId(s) => Ok(s.clone()),
            _ => Err(ApiErrorResponse::PaymentNotFound),
        }
    }
}

/// A merchant id named in a request must be the account's own.
pub open spec fn merchant_id_valid(account_mid: Seq<char>, request_mid: Option<String>) -> bool {
    match request_mid {
        Some(m) => m@ == account_mid,
        None => true,
    }
}

pub fn validate_merchant_id(account_mid: &String, request_mid: &Option<String>) -> (r: Result<(), ApiErrorResponse>)
    ensures
        merchant_id_valid(account_mid@, *request_mid) ==> r.is_ok(),
        !merchant_id_valid(account_mid@, *request_mid) ==> r == Err::<(), ApiErrorResponse>(
            ApiErrorResponse::InvalidDataFormat { field: ErrorField::MerchantId },
        ),
{
    match request_mid {
        Some(m) => {
            if *m == *account_mid {
                Ok(())
            } else {
                Err(ApiErrorResponse::InvalidDataFormat { field: ErrorField::MerchantId })
            }
        },
        None => Ok(()),
    }
}

/// The mandate kind a request asks for; naming both a mandate id and new mandate
/// data is an error.
pub open spec fn mandate_spec(req: PaymentsRequest) -> Result<Option<MandateTxnType>, ApiErrorResponse> {
    if req.mandate_id.is_some() && req.mandate_data.is_some() {
        Err(ApiErrorResponse::InvalidRequestData)
    } else if req.mandate_id.is_some() {
        Ok(Some(MandateTxnType::RecurringMandateTxn))
    } else if req.mandate_data.is_some() {
        Ok(Some(MandateTxnType::NewMandateTxn))
    } else {
        Ok(None)
    }
}

pub fn validate_mandate(req: &PaymentsRequest) -> (r: Result<Option<MandateTxnType>, ApiErrorResponse>)
    ensures
        r == mandate_spec(*req),
{
    if req.mandate_id.is_some() && req.mandate_data.is_some() {
        Err(ApiErrorResponse::InvalidRequestData)
    } else if req.mandate_id.is_some() {
        Ok(Some(MandateTxnType::RecurringMandateTxn))
    } else if req.mandate_data.is_some() {
        Ok(Some(MandateTxnType::NewMandateTxn))
    } else {
        Ok(None)
    }
}

/// The given id, or `prefix` joined by an underscore to a freshly drawn suffix.
pub open spec fn id_or_generated(given: Option<String>, prefix: Seq<char>, fresh: Seq<char>) -> Seq<char> {
    match given {
        Some(g) => g@,
        None => prefix + "_"@ + fresh,
    }
}

pub fn get_or_generate_id(given: &Option<String>, prefix: &str, fresh: &String) -> (r: String)
    ensures
        r@ == id_or_generated(*given, prefix@, fresh@),
{
    match given {
        Some(g) => g.clone(),
        None => {
            let s = prefix.to_owned();
            let s = s.concat("_");
            s.concat(fresh.as_str())
        },
    }
}

/// The request's value where it supplies one, else the stored value.
pub open spec fn prefer_request<T>(request: Option<T>, stored: Option<T>) -> Option<T> {
    match request {
        Some(v) => Some(v),
        None => stored,
    }
}

pub fn prefer_request_string(request: &Option<String>, stored: &Option<String>) -> (r: Option<String>)
    ensures
        r == prefer_request(*request, *stored),
{
    match request {
        Some(v) => Some(v.clone()),
        None => crate::types::clone_opt_string(stored),
    }
}

pub fn prefer_request_method(request: Option<PaymentMethodType>, stored: Option<PaymentMethodType>) -> (r: Option<PaymentMethodType>)
    ensures
        r == prefer_request(request, stored),
{
    match request {
        Some(v) => Some(v),
        None => stored,
    }
}

/// Whether a client secret in the request contradicts the stored one.
pub open spec fn client_secret_mismatch(request: Option<String>, stored: Option<String>) -> bool {
    request.is_some() && stored.is_some() && request->Some_0@ != stored->Some_0@
}

pub fn check_client_secret(request: &Option<String>, stored: &Option<String>) -> (r: Result<(), ApiErrorResponse>)
    ensures
        !client_secret_mismatch(*request, *stored) ==> r.is_ok(),
        client_secret_mismatch(*request, *stored) ==> r == Err::<(), ApiErrorResponse>(ApiErrorResponse::ClientSecretInvalid),
{
    if let Some(req_cs) = request {
        if let Some(pi_cs) = stored {
            if *req_cs != *pi_cs {
                return Err(ApiErrorResponse::ClientSecretInvalid);
            }
        }
    }
    Ok(())
}

} // verus!
