use vstd::prelude::*;

use crate::errors::{ApiErrorResponse, ErrorField};
use crate::helpers::{
    check_client_secret, client_secret_mismatch, get_or_generate_id, id_or_generated, mandate_spec,
    merchant_id_valid, prefer_request, prefer_request_method, prefer_request_string,
    validate_mandate, validate_merchant_id,
};
use crate::types::clone_opt_string;
use crate::store::{PaymentAttemptUpdate, PaymentIntentUpdate, Store};
use crate::types::{
    AttemptStatus, AuthenticationType, CustomerDetails, Flow, IntentStatus, MandateTxnType,
    MerchantAccount, PaymentAddress, PaymentData, PaymentIdType, PaymentIntent, PaymentAttempt,
    PaymentsRequest,
};

verus! {

/// The Confirm operation.
#[derive(Debug, Clone, Copy)]
pub struct PaymentConfirm;

pub open spec fn is_terminal(s: IntentStatus) -> bool {
    s == IntentStatus::Succeeded || s == IntentStatus::Failed
}

/// Confirm's transition table: no 3-D Secure goes straight to processing; anything
/// else waits for the customer.
pub open spec fn confirm_transition(auth: Option<AuthenticationType>) -> (IntentStatus, AttemptStatus) {
    match auth {
        Some(AuthenticationType::NoThreeDs) => (IntentStatus::Processing, AttemptStatus::Pending),
        _ => (IntentStatus::RequiresCustomerAction, AttemptStatus::PendingVbv),
    }
}

/// The status pairs that Confirm may produce.
pub open spec fn confirm_sanctioned(pair: (IntentStatus, AttemptStatus)) -> bool {
    pair == (IntentStatus::Processing, AttemptStatus::Pending)
        || pair == (IntentStatus::RequiresCustomerAction, AttemptStatus::PendingVbv)
}

pub fn confirm_status_transition(auth: Option<AuthenticationType>) -> (r: (IntentStatus, AttemptStatus))
    ensures
        r == confirm_transition(auth),
        confirm_sanctioned(r),
{
    match auth {
        Some(AuthenticationType::NoThreeDs) => (IntentStatus::Processing, AttemptStatus::Pending),
        _ => (IntentStatus::RequiresCustomerAction, AttemptStatus::PendingVbv),
    }
}

/// Every authentication type leads Confirm to one of its sanctioned status pairs.
pub proof fn confirm_transition_total(auth: Option<AuthenticationType>)
    ensures
        confirm_sanctioned(confirm_transition(auth)),
{
}

/// The error, if any, with which Confirm's validation stage rejects a request.
pub open spec fn validate_error(req: PaymentsRequest, account: MerchantAccount) -> Option<ApiErrorResponse> {
    if req.payment_id.is_some() && req.payment_id->Some_0.intent_id_spec().is_none() {
        Some(ApiErrorResponse::PaymentNotFound)
    } else if !merchant_id_valid(account.merchant_id@, req.merchant_id) {
        Some(ApiErrorResponse::InvalidDataFormat { field: ErrorField::MerchantId })
    } else if mandate_spec(req).is_err() {
        Some(mandate_spec(req)->Err_0)
    } else {
        None
    }
}

/// The payment id that validation settles on: the request's, or a generated one.
pub open spec fn validated_payment_id(req: PaymentsRequest, fresh: Seq<char>) -> Seq<char> {
    match req.payment_id {
        Some(id) => id.intent_id_spec()->Some_0,
        None => "pay_"@ + fresh,
    }
}

/// The error, if any, with which Confirm's tracker stage fails for a payment: a
/// missing row, a contradicting client secret, an attempt without currency, or
/// an intent that has already succeeded or failed, in the order they are met.
pub open spec fn trackers_error(st: Store, id: Option<Seq<char>>, mid: Seq<char>, req: PaymentsRequest) -> Option<ApiErrorResponse> {
    if id.is_none() {
        Some(ApiErrorResponse::PaymentNotFound)
    } else if st.intent_at(id->Some_0, mid).is_none() {
        Some(ApiErrorResponse::PaymentNotFound)
    } else if client_secret_mismatch(req.client_secret, st.intent_at(id->Some_0, mid)->Some_0.client_secret) {
        Some(ApiErrorResponse::ClientSecretInvalid)
    } else if st.attempt_at(id->Some_0, mid).is_none() {
        Some(ApiErrorResponse::PaymentNotFound)
    } else if st.attempt_at(id->Some_0, mid)->Some_0.currency.is_none() {
        Some(ApiErrorResponse::MissingRequiredField { field: ErrorField::Currency })
    } else if ({
        let a = st.attempt_at(id->Some_0, mid)->Some_0;
        st.response_at(a.payment_id@, a.merchant_id@, a.txn_id@).is_none()
    }) {
        Some(ApiErrorResponse::PaymentNotFound)
    } else if is_terminal(st.intent_at(id->Some_0, mid)->Some_0.status) {
        Some(ApiErrorResponse::InvalidDataFormat { field: ErrorField::PaymentId })
    } else {
        None
    }
}

/// The working state that Confirm's tracker stage assembles from the stored rows
/// and the request.
pub open spec fn confirm_working_state(
    st: Store,
    id: Seq<char>,
    mid: Seq<char>,
    req: PaymentsRequest,
    mandate_type: Option<MandateTxnType>,
    d: PaymentData,
    c: CustomerDetails,
) -> bool {
    let i = st.intent_at(id, mid)->Some_0;
    let a = st.attempt_at(id, mid)->Some_0;
    let shipping = prefer_request(req.shipping_address_id, i.shipping_address_id);
    let billing = prefer_request(req.billing_address_id, i.billing_address_id);
    &&& d.flow == Flow::Authorize
    &&& d.payment_intent == (PaymentIntent { shipping_address_id: shipping, billing_address_id: billing, ..i })
    &&& d.payment_attempt == (PaymentAttempt {
        payment_method: prefer_request(req.payment_method, a.payment_method),
        ..a
    })
    &&& d.currency == a.currency->Some_0
    &&& d.amount == a.amount
    &&& d.connector_response == st.response_at(a.payment_id@, a.merchant_id@, a.txn_id@)->Some_0
    &&& d.mandate_id.is_none()
    &&& d.setup_mandate == (if mandate_type == Some(MandateTxnType::NewMandateTxn) {
        req.mandate_data
    } else {
        None
    })
    &&& d.token == req.payment_token
    &&& d.address == (PaymentAddress { shipping, billing })
    &&& d.confirm == req.confirm
    &&& d.payment_method_data == req.payment_method_data
    &&& d.force_sync.is_none()
    &&& d.refunds@.len() == 0
    &&& c == (CustomerDetails {
        customer_id: req.customer_id,
        name: req.name,
        email: req.email,
        phone: req.phone,
        phone_country_code: req.phone_country_code,
    })
}

impl PaymentConfirm {
    /// Validate stage: checks the request against the merchant account and settles
    /// the payment id, drawing on `fresh` for a new id when the request names none.
    pub fn validate_request(
        &self,
        request: &PaymentsRequest,
        merchant_account: &MerchantAccount,
        fresh: &String,
    ) -> (r: Result<(String, PaymentIdType, Option<MandateTxnType>), ApiErrorResponse>)
        ensures
            match validate_error(*request, *merchant_account) {
                Some(e) => r == Err::<(String, PaymentIdType, Option<MandateTxnType>), ApiErrorResponse>(e),
                None => match r {
                    Ok((m, PaymentIdType::PaymentIntentId(p), mt)) => m@ == merchant_account.merchant_id@
                        && p@ == validated_payment_id(*request, fresh@)
                        && mt == mandate_spec(*request)->Ok_0,
                    _ => false,
                },
            },
    {
        let given_payment_id = match &request.payment_id {
            Some(id_type) => Some(id_type.get_payment_intent_id()?),
            None => None,
        };
        validate_merchant_id(&merchant_account.merchant_id, &request.merchant_id)?;
        let mandate_type = validate_mandate(request)?;
        let payment_id = get_or_generate_id(&given_payment_id, "pay", fresh);
        proof {
            reveal_strlit("pay");
            reveal_strlit("pay_");
            reveal_strlit("_");
            assert("pay"@ + "_"@ =~= "pay_"@);
        }
        Ok((
            merchant_account.merchant_id.clone(),
            PaymentIdType::PaymentIntentId(payment_id),
            mandate_type,
        ))
    }
    /// GetTracker stage: loads the intent and checks the client secret before the
    /// attempt is read, then loads the attempt and the connector response, refuses
    /// an intent that has already succeeded or failed, and assembles the working
    /// state. Reads only: nothing is written whatever the outcome.
    pub fn get_trackers(
        &self,
        store: &Store,
        payment_id: &PaymentIdType,
        merchant_id: &String,
        request: &PaymentsRequest,
        mandate_type: Option<MandateTxnType>,
    ) -> (r: Result<(PaymentData, CustomerDetails), ApiErrorResponse>)
        requires
            store.wf(),
        ensures
            match trackers_error(*store, payment_id.intent_id_spec(), merchant_id@, *request) {
                Some(e) => r == Err::<(PaymentData, CustomerDetails), ApiErrorResponse>(e),
                None => r.is_ok() && confirm_working_state(
                    *store,
                    payment_id.intent_id_spec()->Some_0,
                    merchant_id@,
                    *request,
                    mandate_type,
                    r->Ok_0.0,
                    r->Ok_0.1,
                ),
            },
    {
        let payment_id = payment_id.get_payment_intent_id()?;
        let token = clone_opt_string(&request.payment_token);
        let payment_method_type = request.payment_method;
        let setup_mandate = match mandate_type {
            Some(MandateTxnType::NewMandateTxn) => clone_opt_string(&request.mandate_data),
            _ => None,
        };

        let mut payment_intent = match store.find_payment_intent_by_payment_id_merchant_id(&payment_id, merchant_id) {
            Ok(i) => i,
            Err(e) => return Err(e.to_not_found_response(ApiErrorResponse::PaymentNotFound)),
        };
        check_client_secret(&request.client_secret, &payment_intent.client_secret)?;

        let mut payment_attempt = match store.find_payment_attempt_by_payment_id_merchant_id(&payment_id, merchant_id) {
            Ok(a) => a,
            Err(e) => return Err(e.to_not_found_response(ApiErrorResponse::PaymentNotFound)),
        };
        payment_attempt.payment_method = prefer_request_method(payment_method_type, payment_attempt.payment_method);
        let currency = match payment_attempt.currency {
            Some(c) => c,
            None => {
                return Err(ApiErrorResponse::MissingRequiredField { field: ErrorField::Currency });
            },
        };
        let amount = payment_attempt.amount;

        let connector_response = match store.find_connector_response_by_payment_id_merchant_id_txn_id(
            &payment_attempt.payment_id,
            &payment_attempt.merchant_id,
            &payment_attempt.txn_id,
        ) {
            Ok(c) => c,
            Err(e) => return Err(e.to_not_found_response(ApiErrorResponse::PaymentNotFound)),
        };
        match payment_intent.status {
            IntentStatus::Succeeded | IntentStatus::Failed => {
                return Err(ApiErrorResponse::InvalidDataFormat { field: ErrorField::PaymentId });
            },
            _ => {},
        }

        let shipping = prefer_request_string(&request.shipping_address_id, &payment_intent.shipping_address_id);
        let billing = prefer_request_string(&request.billing_address_id, &payment_intent.billing_address_id);
        payment_intent.shipping_address_id = clone_opt_string(&shipping);
        payment_intent.billing_address_id = clone_opt_string(&billing);

        let data = PaymentData {
            flow: Flow::Authorize,
            payment_intent,
            payment_attempt,
            currency,
            amount,
            connector_response,
            mandate_id: None,
            setup_mandate,
            token,
            address: PaymentAddress { shipping, billing },
            confirm: request.confirm,
            payment_method_data: clone_opt_string(&request.payment_method_data),
            force_sync: None,
            refunds: Vec::new(),
        };
        let customer = CustomerDetails {
            customer_id: clone_opt_string(&request.customer_id),
            name: clone_opt_string(&request.name),
            email: clone_opt_string(&request.email),
            phone: clone_opt_string(&request.phone),
            phone_country_code: clone_opt_string(&request.phone_country_code),
        };
        Ok((data, customer))
    }

    /// UpdateTracker stage: applies Confirm's transition table and writes only the
    /// changed fields, first of the stored attempt (status and payment method), then
    /// of the stored intent (status and address ids), taking the new values from the
    /// working state. The working state comes back holding the rows as written.
    pub fn update_trackers(&self, store: &mut Store, payment_data: PaymentData) -> (r: Result<PaymentData, ApiErrorResponse>)
        requires
            old(store).wf(),
        ensures
            final(store).wf(),
            ({
                let a = payment_data.payment_attempt;
                let i = payment_data.payment_intent;
                let (istatus, astatus) = confirm_transition(a.authentication_type);
                let pa = old(store).attempt_pos(a.payment_id@, a.merchant_id@);
                let pi = old(store).intent_pos(i.payment_id@, i.merchant_id@);
                let a2 = PaymentAttempt {
                    status: astatus,
                    payment_method: a.payment_method,
                    ..old(store).attempts()[pa]
                };
                let i2 = PaymentIntent {
                    status: istatus,
                    shipping_address_id: i.shipping_address_id,
                    billing_address_id: i.billing_address_id,
                    ..old(store).intents()[pi]
                };
                if !old(store).has_attempt(a.payment_id@, a.merchant_id@) {
                    r == Err::<PaymentData, ApiErrorResponse>(ApiErrorResponse::PaymentNotFound)
                        && *final(store) == *old(store)
                } else if !old(store).has_intent(i.payment_id@, i.merchant_id@) {
                    r == Err::<PaymentData, ApiErrorResponse>(ApiErrorResponse::PaymentNotFound)
                        && final(store).attempts() == old(store).attempts().update(pa, a2)
                        && final(store).intents() == old(store).intents()
                        && final(store).responses() == old(store).responses()
                } else {
                    r.is_ok()
                        && r->Ok_0 == (PaymentData { payment_attempt: a2, payment_intent: i2, ..payment_data })
                        && final(store).attempts() == old(store).attempts().update(pa, a2)
                        && final(store).intents() == old(store).intents().update(pi, i2)
                        && final(store).responses() == old(store).responses()
                }
            }),
    {
        let mut payment_data = payment_data;
        let payment_method = payment_data.payment_attempt.payment_method;
        let (intent_status, attempt_status) = confirm_status_transition(payment_data.payment_attempt.authentication_type);

        payment_data.payment_attempt = match store.update_payment_attempt(
            &payment_data.payment_attempt,
            PaymentAttemptUpdate::ConfirmUpdate { status: attempt_status, payment_method },
        ) {
            Ok(a) => a,
            Err(e) => return Err(e.to_not_found_response(ApiErrorResponse::PaymentNotFound)),
        };

        let shipping_address_id = clone_opt_string(&payment_data.payment_intent.shipping_address_id);
        let billing_address_id = clone_opt_string(&payment_data.payment_intent.billing_address_id);
        payment_data.payment_intent = match store.update_payment_intent(
            &payment_data.payment_intent,
            PaymentIntentUpdate::MerchantStatusUpdate { status: intent_status, shipping_address_id, billing_address_id },
        ) {
            Ok(i) => i,
            Err(e) => return Err(e.to_not_found_response(ApiErrorResponse::PaymentNotFound)),
        };
        Ok(payment_data)
    }
}

} // verus!
