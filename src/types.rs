use vstd::prelude::*;

verus! {

/// Overall status of a payment intent.
#[derive(Debug, Clone, Copy, PartialEq, Eq, Structural)]
pub enum IntentStatus {
    RequiresPaymentMethod,
    RequiresConfirmation,
    RequiresCustomerAction,
    RequiresCapture,
    Processing,
    Succeeded,
    Failed,
    Cancelled,
}

/// Status of one concrete execution attempt.
#[derive(Debug, Clone, Copy, PartialEq, Eq, Structural)]
pub enum AttemptStatus {
    Started,
    Authorizing,
    Pending,
    PendingVbv,
    Authorized,
    Charged,
    Voided,
    VoidFailed,
    Failure,
}

#[derive(Debug, Clone, Copy, PartialEq, Eq, Structural)]
pub enum AuthenticationType {
    ThreeDs,
    NoThreeDs,
}

#[derive(Debug, Clone, Copy, PartialEq, Eq, Structural)]
pub enum PaymentMethodType {
    Card,
    Wallet,
    BankTransfer,
    PayLater,
}

#[derive(Debug, Clone, Copy, PartialEq, Eq, Structural)]
pub enum Currency {
    USD,
    EUR,
    GBP,
    INR,
    JPY,
}

#[derive(Debug, Clone, Copy, PartialEq, Eq, Structural)]
pub enum MandateTxnType {
    NewMandateTxn,
    RecurringMandateTxn,
}

/// The payment lifecycle operation that a working state belongs to.
#[derive(Debug, Clone, Copy, PartialEq, Eq, Structural)]
pub enum Flow {
    Authorize,
    Void,
    Capture,
    PSync,
}

/// Whether the dispatcher must reach the connector, or may skip the remote call.
#[derive(Debug, Clone, Copy, PartialEq, Eq, Structural)]
pub enum CallConnectorAction {
    Trigger,
    Skip,
}

/// How a payment is identified in a request.
#[derive(Debug)]
pub enum PaymentIdType {
    PaymentIntentId(String),
    ConnectorTransactionId(String),
    PaymentTxnId(String),
}

/// The merchant-level header of a payment.
#[derive(Debug)]
pub struct PaymentIntent {
    pub payment_id: String,
    pub merchant_id: String,
    pub status: IntentStatus,
    pub amount: i64,
    pub currency: Option<Currency>,
    pub shipping_address_id: Option<String>,
    pub billing_address_id: Option<String>,
    pub client_secret: Option<String>,
}

/// One concrete attempt to execute an intent.
#[derive(Debug)]
pub struct PaymentAttempt {
    pub payment_id: String,
    pub merchant_id: String,
    pub txn_id: String,
    pub status: AttemptStatus,
    pub amount: i64,
    pub currency: Option<Currency>,
    pub payment_method: Option<PaymentMethodType>,
    pub authentication_type: Option<AuthenticationType>,
}

/// The connector's response record for one attempt.
#[derive(Debug)]
pub struct ConnectorResponse {
    pub payment_id: String,
    pub merchant_id: String,
    pub txn_id: String,
    pub connector_transaction_id: Option<String>,
}

#[derive(Debug)]
pub struct MerchantAccount {
    pub merchant_id: String,
}

#[derive(Debug)]
pub struct PaymentAddress {
    pub shipping: Option<String>,
    pub billing: Option<String>,
}

#[derive(Debug)]
pub struct CustomerDetails {
    pub customer_id: Option<String>,
    pub name: Option<String>,
    pub email: Option<String>,
    pub phone: Option<String>,
    pub phone_country_code: Option<String>,
}

/// An inbound payment request, already parsed.
#[derive(Debug)]
pub struct PaymentsRequest {
    pub payment_id: Option<PaymentIdType>,
    pub merchant_id: Option<String>,
    pub client_secret: Option<String>,
    pub payment_method: Option<PaymentMethodType>,
    /// The payment method details (card, wallet, ...) as the client sent them.
    pub payment_method_data: Option<String>,
    pub payment_token: Option<String>,
    pub mandate_id: Option<String>,
    pub mandate_data: Option<String>,
    pub shipping_address_id: Option<String>,
    pub billing_address_id: Option<String>,
    pub confirm: Option<bool>,
    pub customer_id: Option<String>,
    pub name: Option<String>,
    pub email: Option<String>,
    pub phone: Option<String>,
    pub phone_country_code: Option<String>,
}

/// The working state threaded through the four stages of one operation.
#[derive(Debug)]
pub struct PaymentData {
    pub flow: Flow,
    pub payment_intent: PaymentIntent,
    pub payment_attempt: PaymentAttempt,
    pub currency: Currency,
    pub amount: i64,
    pub connector_response: ConnectorResponse,
    pub mandate_id: Option<String>,
    pub setup_mandate: Option<String>,
    pub token: Option<String>,
    pub address: PaymentAddress,
    pub confirm: Option<bool>,
    pub payment_method_data: Option<String>,
    pub force_sync: Option<bool>,
    pub refunds: Vec<String>,
}

/// Copies an optional string.
pub fn clone_opt_string(s: &Option<String>) -> (r: Option<String>)
    ensures
        r == *s,
{
    match s {
        Some(v) => Some(v.clone()),
        None => None,
    }
}

impl Clone for PaymentIntent {
    fn clone(&self) -> (r: Self)
        ensures
            r == *self,
    {
        PaymentIntent {
            payment_id: self.payment_id.clone(),
            merchant_id: self.merchant_id.clone(),
            status: self.status,
            amount: self.amount,
            currency: self.currency,
            shipping_address_id: clone_opt_string(&self.shipping_address_id),
            billing_address_id: clone_opt_string(&self.billing_address_id),
            client_secret: clone_opt_string(&self.client_secret),
        }
    }
}

impl Clone for PaymentAttempt {
    fn clone(&self) -> (r: Self)
        ensures
            r == *self,
    {
        PaymentAttempt {
            payment_id: self.payment_id.clone(),
            merchant_id: self.merchant_id.clone(),
            txn_id: self.txn_id.clone(),
            status: self.status,
            amount: self.amount,
            currency: self.currency,
            payment_method: self.payment_method,
            authentication_type: self.authentication_type,
        }
    }
}

impl Clone for ConnectorResponse {
    fn clone(&self) -> (r: Self)
        ensures
            r == *self,
    {
        ConnectorResponse {
            payment_id: self.payment_id.clone(),
            merchant_id: self.merchant_id.clone(),
            txn_id: self.txn_id.clone(),
            connector_transaction_id: clone_opt_string(&self.connector_transaction_id),
        }
    }
}

} // verus!
