use vstd::prelude::*;
use vstd::string::*;

verus! {

/// A request field that an error refers to.
#[derive(Debug, Clone, Copy, PartialEq, Eq, Structural)]
pub enum ErrorField {
    PaymentId,
    MerchantId,
    Currency,
    MandateId,
    ConnectorTransactionId,
}

/// The uniform error that the request-handling layer sees.
#[derive(Debug)]
pub enum ApiErrorResponse {
    PaymentNotFound,
    ClientSecretInvalid,
    InvalidDataFormat { field: ErrorField },
    MissingRequiredField { field: ErrorField },
    InvalidRequestData,
    PaymentFailed { code: Option<String>, message: Option<String> },
    DuplicatePayment,
    InternalServerError,
}

/// What the repository reports.
#[derive(Debug, Clone, Copy, PartialEq, Eq, Structural)]
pub enum StorageError {
    ValueNotFound,
    DuplicateValue,
    DatabaseError,
}

/// A failure of the remote call: transport, timeout, malformed or non-success response.
#[derive(Debug)]
pub enum ConnectorError {
    RequestTimeout,
    ResponseDeserializationFailed,
    FailedAtConnector { code: String, message: String },
    ProcessingStepFailed,
}

/// How a remote call went wrong before a uniform response could be read from it.
#[derive(Debug, Clone, Copy, PartialEq, Eq, Structural)]
pub enum TransportFailure {
    /// No answer within the timeout.
    Timeout,
    /// The connector answered with a non-success status.
    ErrorStatus,
    /// The body could not be read into the connector's response shape.
    MalformedBody,
    /// The connection could not be made or broke off.
    Unreachable,
    /// No strategy is registered for the chosen connector and flow.
    NoIntegration,
}

/// The connector error for a transport failure; a non-success answer carries the
/// connector's own code and message where they could be read from its body.
pub open spec fn connector_error_spec(kind: TransportFailure, parsed: Option<(String, String)>) -> ConnectorError {
    match kind {
        TransportFailure::Timeout => ConnectorError::RequestTimeout,
        TransportFailure::MalformedBody => ConnectorError::ResponseDeserializationFailed,
        TransportFailure::ErrorStatus => match parsed {
            Some((code, message)) => ConnectorError::FailedAtConnector { code, message },
            None => ConnectorError::ProcessingStepFailed,
        },
        _ => ConnectorError::ProcessingStepFailed,
    }
}

pub fn connector_error_from_failure(kind: TransportFailure, parsed: Option<(String, String)>) -> (r: ConnectorError)
    ensures
        r == connector_error_spec(kind, parsed),
{
    match kind {
        TransportFailure::Timeout => ConnectorError::RequestTimeout,
        TransportFailure::MalformedBody => ConnectorError::ResponseDeserializationFailed,
        TransportFailure::ErrorStatus => match parsed {
            Some((code, message)) => ConnectorError::FailedAtConnector { code, message },
            None => ConnectorError::ProcessingStepFailed,
        },
        _ => ConnectorError::ProcessingStepFailed,
    }
}

impl StorageError {
    pub open spec fn not_found_response_spec(self, not_found: ApiErrorResponse) -> ApiErrorResponse {
        match self {
            StorageError::ValueNotFound => not_found,
            _ => ApiErrorResponse::InternalServerError,
        }
    }

    /// A missing row becomes `not_found`; any other storage failure is internal.
    pub fn to_not_found_response(self, not_found: ApiErrorResponse) -> (r: ApiErrorResponse)
        ensures
            r == self.not_found_response_spec(not_found),
    {
        match self {
            StorageError::ValueNotFound => not_found,
            _ => ApiErrorResponse::InternalServerError,
        }
    }
}

impl ConnectorError {
    pub open spec fn payment_failed_spec(self) -> ApiErrorResponse {
        match self {
            ConnectorError::FailedAtConnector { code, message } => ApiErrorResponse::PaymentFailed {
                code: Some(code),
                message: Some(message),
            },
            _ => ApiErrorResponse::PaymentFailed { code: None, message: None },
        }
    }

    /// Normalises a connector failure into a "payment failed" error, carrying the
    /// connector's code and message when it supplied them.
    pub fn to_payment_failed_response(self) -> (r: ApiErrorResponse)
        ensures
            r == self.payment_failed_spec(),
    {
        match self {
            ConnectorError::FailedAtConnector { code, message } => ApiErrorResponse::PaymentFailed {
                code: Some(code),
                message: Some(message),
            },
            _ => ApiErrorResponse::PaymentFailed { code: None, message: None },
        }
    }
}

impl ApiErrorResponse {
    /// The stable code of each error kind.
    pub open spec fn code_spec(&self) -> Seq<char> {
        match self {
            ApiErrorResponse::InternalServerError => "HE_00"@,
            ApiErrorResponse::DuplicatePayment => "HE_01"@,
            ApiErrorResponse::PaymentNotFound => "HE_02"@,
            ApiErrorResponse::MissingRequiredField { .. } => "IR_04"@,
            ApiErrorResponse::InvalidDataFormat { .. } => "IR_05"@,
            ApiErrorResponse::InvalidRequestData => "IR_06"@,
            ApiErrorResponse::ClientSecretInvalid => "IR_09"@,
            ApiErrorResponse::PaymentFailed { .. } => "CE_01"@,
        }
    }

    /// The message shown to the client; a connector's own message passes through.
    pub open spec fn message_spec(&self) -> Seq<char> {
        match self {
            ApiErrorResponse::InternalServerError => "Something went wrong"@,
            ApiErrorResponse::DuplicatePayment => "The payment already exists"@,
            ApiErrorResponse::PaymentNotFound => "Payment does not exist in our records"@,
            ApiErrorResponse::MissingRequiredField { .. } => "A required field is missing"@,
            ApiErrorResponse::InvalidDataFormat { .. } => "A field has an invalid format"@,
            ApiErrorResponse::InvalidRequestData =>
                "Expected one out of mandate_id and mandate_data but got both"@,
            ApiErrorResponse::ClientSecretInvalid => "The client_secret provided does not match"@,
            ApiErrorResponse::PaymentFailed { message, .. } => match message {
                Some(m) => m@,
                None => "Payment failed at the processor"@,
            },
        }
    }

    pub fn error_code(&self) -> (r: String)
        ensures
            r@ == self.code_spec(),
    {
        let s: &str = match self {
            ApiErrorResponse::InternalServerError => "HE_00",
            ApiErrorResponse::DuplicatePayment => "HE_01",
            ApiErrorResponse::PaymentNotFound => "HE_02",
            ApiErrorResponse::MissingRequiredField { .. } => "IR_04",
            ApiErrorResponse::InvalidDataFormat { .. } => "IR_05",
            ApiErrorResponse::InvalidRequestData => "IR_06",
            ApiErrorResponse::ClientSecretInvalid => "IR_09",
            ApiErrorResponse::PaymentFailed { .. } => "CE_01",
        };
        String::from_str(s)
    }

    pub fn error_message(&self) -> (r: String)
        ensures
            r@ == self.message_spec(),
    {
        match self {
            ApiErrorResponse::PaymentFailed { message: Some(m), .. } => m.clone(),
            _ => {
                let s: &str = match self {
                    ApiErrorResponse::InternalServerError => "Something went wrong",
                    ApiErrorResponse::DuplicatePayment => "The payment already exists",
                    ApiErrorResponse::PaymentNotFound => "Payment does not exist in our records",
                    ApiErrorResponse::MissingRequiredField { .. } => "A required field is missing",
                    ApiErrorResponse::InvalidDataFormat { .. } => "A field has an invalid format",
                    ApiErrorResponse::InvalidRequestData =>
                        "Expected one out of mandate_id and mandate_data but got both",
                    ApiErrorResponse::ClientSecretInvalid =>
                        "The client_secret provided does not match",
                    ApiErrorResponse::PaymentFailed { .. } => "Payment failed at the processor",
                };
                String::from_str(s)
            },
        }
    }

    /// The uniform error envelope: stable code and message.
    pub fn to_response(&self) -> (r: (String, String))
        ensures
            r.0@ == self.code_spec(),
            r.1@ == self.message_spec(),
    {
        (self.error_code(), self.error_message())
    }
}

} // verus!
