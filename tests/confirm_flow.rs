use router::confirm::{confirm_status_transition, PaymentConfirm};
use router::errors::{ApiErrorResponse, ErrorField, StorageError};
use router::pipeline::run_confirm;
use router::store::Store;
use router::types::{
    AttemptStatus, AuthenticationType, ConnectorResponse, Currency, Flow, IntentStatus,
    MandateTxnType, MerchantAccount, PaymentAttempt, PaymentIdType, PaymentIntent,
    PaymentMethodType, PaymentsRequest,
};

fn s(v: &str) -> String {
    v.to_string()
}

fn intent(status: IntentStatus, secret: Option<&str>) -> PaymentIntent {
    PaymentIntent {
        payment_id: s("pay_123"),
        merchant_id: s("m_1"),
        status,
        amount: 1000,
        currency: Some(Currency::USD),
        shipping_address_id: Some(s("addr_ship")),
        billing_address_id: None,
        client_secret: secret.map(|c| c.to_string()),
    }
}

fn attempt(auth: Option<AuthenticationType>) -> PaymentAttempt {
    PaymentAttempt {
        payment_id: s("pay_123"),
        merchant_id: s("m_1"),
        txn_id: s("txn_1"),
        status: AttemptStatus::Started,
        amount: 1000,
        currency: Some(Currency::USD),
        payment_method: Some(PaymentMethodType::Card),
        authentication_type: auth,
    }
}

fn response() -> ConnectorResponse {
    ConnectorResponse {
        payment_id: s("pay_123"),
        merchant_id: s("m_1"),
        txn_id: s("txn_1"),
        connector_transaction_id: Some(s("ctx_9")),
    }
}

fn seeded(status: IntentStatus, auth: Option<AuthenticationType>) -> Store {
    let mut st = Store::new();
    assert!(st.insert_payment_intent(intent(status, Some("secret_1"))).is_ok());
    assert!(st.insert_payment_attempt(attempt(auth)).is_ok());
    assert!(st.insert_connector_response(response()).is_ok());
    st
}

fn request() -> PaymentsRequest {
    PaymentsRequest {
        payment_id: Some(PaymentIdType::PaymentIntentId(s("pay_123"))),
        merchant_id: Some(s("m_1")),
        client_secret: None,
        payment_method: None,
        payment_method_data: Some(s("card_4242")),
        payment_token: None,
        mandate_id: None,
        mandate_data: None,
        shipping_address_id: None,
        billing_address_id: None,
        confirm: Some(true),
        customer_id: Some(s("cus_1")),
        name: Some(s("Ada")),
        email: Some(s("ada@example.com")),
        phone: Some(s("5550100")),
        phone_country_code: Some(s("+1")),
    }
}

fn account() -> MerchantAccount {
    MerchantAccount { merchant_id: s("m_1") }
}

fn find_statuses(st: &Store) -> (IntentStatus, AttemptStatus) {
    let i = st.find_payment_intent_by_payment_id_merchant_id(&s("pay_123"), &s("m_1")).unwrap();
    let a = st.find_payment_attempt_by_payment_id_merchant_id(&s("pay_123"), &s("m_1")).unwrap();
    (i.status, a.status)
}

#[test]
fn confirm_no_three_ds_moves_to_processing_and_pending() {
    let mut st = seeded(IntentStatus::RequiresConfirmation, Some(AuthenticationType::NoThreeDs));
    let d = run_confirm(&mut st, &request(), &account(), &s("fresh")).unwrap();
    assert_eq!(d.payment_intent.status, IntentStatus::Processing);
    assert_eq!(d.payment_attempt.status, AttemptStatus::Pending);
    assert_eq!(find_statuses(&st), (IntentStatus::Processing, AttemptStatus::Pending));
}

#[test]
fn confirm_three_ds_waits_for_customer() {
    let mut st = seeded(IntentStatus::RequiresConfirmation, Some(AuthenticationType::ThreeDs));
    run_confirm(&mut st, &request(), &account(), &s("fresh")).unwrap();
    assert_eq!(find_statuses(&st), (IntentStatus::RequiresCustomerAction, AttemptStatus::PendingVbv));
}

#[test]
fn confirm_transition_table_covers_every_authentication_type() {
    let sanctioned = [
        (IntentStatus::Processing, AttemptStatus::Pending),
        (IntentStatus::RequiresCustomerAction, AttemptStatus::PendingVbv),
    ];
    for auth in [None, Some(AuthenticationType::ThreeDs), Some(AuthenticationType::NoThreeDs)] {
        assert!(sanctioned.contains(&confirm_status_transition(auth)));
    }
    assert_eq!(
        confirm_status_transition(None),
        (IntentStatus::RequiresCustomerAction, AttemptStatus::PendingVbv)
    );
}

#[test]
fn confirm_on_terminal_intent_is_refused_without_writes() {
    for status in [IntentStatus::Succeeded, IntentStatus::Failed] {
        let mut st = seeded(status, Some(AuthenticationType::NoThreeDs));
        let r = run_confirm(&mut st, &request(), &account(), &s("fresh"));
        assert!(matches!(
            r,
            Err(ApiErrorResponse::InvalidDataFormat { field: ErrorField::PaymentId })
        ));
        assert_eq!(find_statuses(&st), (status, AttemptStatus::Started));
    }
}

#[test]
fn client_secret_mismatch_fails_before_attempt_is_loaded() {
    // No attempt is stored: the secret check must fire first.
    let mut st = Store::new();
    assert!(st.insert_payment_intent(intent(IntentStatus::RequiresConfirmation, Some("secret_1"))).is_ok());
    let mut req = request();
    req.client_secret = Some(s("other"));
    let r = PaymentConfirm.get_trackers(&st, &PaymentIdType::PaymentIntentId(s("pay_123")), &s("m_1"), &req, None);
    assert!(matches!(r, Err(ApiErrorResponse::ClientSecretInvalid)));
    let r = run_confirm(&mut st, &req, &account(), &s("fresh"));
    assert!(matches!(r, Err(ApiErrorResponse::ClientSecretInvalid)));
}

#[test]
fn matching_client_secret_is_accepted() {
    let mut st = seeded(IntentStatus::RequiresConfirmation, Some(AuthenticationType::NoThreeDs));
    let mut req = request();
    req.client_secret = Some(s("secret_1"));
    assert!(run_confirm(&mut st, &req, &account(), &s("fresh")).is_ok());
}

#[test]
fn get_trackers_round_trips_amount_and_currency() {
    let mut st = Store::new();
    let mut a = attempt(Some(AuthenticationType::NoThreeDs));
    a.amount = 4242;
    a.currency = Some(Currency::EUR);
    assert!(st.insert_payment_intent(intent(IntentStatus::RequiresConfirmation, None)).is_ok());
    assert!(st.insert_payment_attempt(a).is_ok());
    assert!(st.insert_connector_response(response()).is_ok());
    let (d, c) = PaymentConfirm
        .get_trackers(&st, &PaymentIdType::PaymentIntentId(s("pay_123")), &s("m_1"), &request(), None)
        .unwrap();
    assert_eq!(d.amount, 4242);
    assert_eq!(d.currency, Currency::EUR);
    assert_eq!(d.payment_attempt.amount, 4242);
    assert_eq!(d.payment_attempt.currency, Some(Currency::EUR));
    assert_eq!(d.flow, Flow::Authorize);
    assert_eq!(d.connector_response.connector_transaction_id, Some(s("ctx_9")));
    assert!(d.refunds.is_empty());
    assert_eq!(c.customer_id, Some(s("cus_1")));
    assert_eq!(c.name, Some(s("Ada")));
    assert_eq!(c.email, Some(s("ada@example.com")));
    assert_eq!(c.phone, Some(s("5550100")));
    assert_eq!(c.phone_country_code, Some(s("+1")));
    assert_eq!(d.payment_method_data, Some(s("card_4242")));
}

#[test]
fn request_values_override_stored_ones_only_when_given() {
    let st = seeded(IntentStatus::RequiresConfirmation, None);
    let mut req = request();
    req.payment_method = Some(PaymentMethodType::Wallet);
    req.billing_address_id = Some(s("addr_bill"));
    let (d, _) = PaymentConfirm
        .get_trackers(&st, &PaymentIdType::PaymentIntentId(s("pay_123")), &s("m_1"), &req, None)
        .unwrap();
    assert_eq!(d.payment_attempt.payment_method, Some(PaymentMethodType::Wallet));
    assert_eq!(d.address.shipping, Some(s("addr_ship")));
    assert_eq!(d.address.billing, Some(s("addr_bill")));
    assert_eq!(d.payment_intent.billing_address_id, Some(s("addr_bill")));

    let (d, _) = PaymentConfirm
        .get_trackers(&st, &PaymentIdType::PaymentIntentId(s("pay_123")), &s("m_1"), &request(), None)
        .unwrap();
    assert_eq!(d.payment_attempt.payment_method, Some(PaymentMethodType::Card));
    assert_eq!(d.address.billing, None);
}

#[test]
fn missing_rows_give_not_found() {
    let st = Store::new();
    let r = PaymentConfirm.get_trackers(&st, &PaymentIdType::PaymentIntentId(s("pay_123")), &s("m_1"), &request(), None);
    assert!(matches!(r, Err(ApiErrorResponse::PaymentNotFound)));

    let mut st = Store::new();
    assert!(st.insert_payment_intent(intent(IntentStatus::RequiresConfirmation, None)).is_ok());
    assert!(st.insert_payment_attempt(attempt(None)).is_ok());
    let r = PaymentConfirm.get_trackers(&st, &PaymentIdType::PaymentIntentId(s("pay_123")), &s("m_1"), &request(), None);
    assert!(matches!(r, Err(ApiErrorResponse::PaymentNotFound)));

    let r = PaymentConfirm.get_trackers(&st, &PaymentIdType::ConnectorTransactionId(s("ctx_9")), &s("m_1"), &request(), None);
    assert!(matches!(r, Err(ApiErrorResponse::PaymentNotFound)));
}

#[test]
fn attempt_without_currency_is_refused() {
    let mut st = Store::new();
    let mut a = attempt(None);
    a.currency = None;
    assert!(st.insert_payment_intent(intent(IntentStatus::RequiresConfirmation, None)).is_ok());
    assert!(st.insert_payment_attempt(a).is_ok());
    assert!(st.insert_connector_response(response()).is_ok());
    let r = PaymentConfirm.get_trackers(&st, &PaymentIdType::PaymentIntentId(s("pay_123")), &s("m_1"), &request(), None);
    assert!(matches!(
        r,
        Err(ApiErrorResponse::MissingRequiredField { field: ErrorField::Currency })
    ));
}

#[test]
fn validate_request_generates_an_id_when_absent() {
    let mut req = request();
    req.payment_id = None;
    let (m, id, mt) = PaymentConfirm.validate_request(&req, &account(), &s("abc")).unwrap();
    assert_eq!(m, s("m_1"));
    assert!(matches!(id, PaymentIdType::PaymentIntentId(ref p) if p == "pay_abc"));
    assert_eq!(mt, None);

    let (_, id, _) = PaymentConfirm.validate_request(&request(), &account(), &s("abc")).unwrap();
    assert!(matches!(id, PaymentIdType::PaymentIntentId(ref p) if p == "pay_123"));
}

#[test]
fn validate_request_rejects_foreign_merchant_and_double_mandate() {
    let mut req = request();
    req.merchant_id = Some(s("m_2"));
    let r = PaymentConfirm.validate_request(&req, &account(), &s("abc"));
    assert!(matches!(
        r,
        Err(ApiErrorResponse::InvalidDataFormat { field: ErrorField::MerchantId })
    ));

    let mut req = request();
    req.mandate_id = Some(s("man_1"));
    req.mandate_data = Some(s("accept"));
    let r = PaymentConfirm.validate_request(&req, &account(), &s("abc"));
    assert!(matches!(r, Err(ApiErrorResponse::InvalidRequestData)));

    let mut req = request();
    req.mandate_data = Some(s("accept"));
    let (_, _, mt) = PaymentConfirm.validate_request(&req, &account(), &s("abc")).unwrap();
    assert_eq!(mt, Some(MandateTxnType::NewMandateTxn));

    let mut req = request();
    req.payment_id = Some(PaymentIdType::PaymentTxnId(s("t")));
    let r = PaymentConfirm.validate_request(&req, &account(), &s("abc"));
    assert!(matches!(r, Err(ApiErrorResponse::PaymentNotFound)));
}

#[test]
fn store_refuses_duplicate_keys_and_unknown_updates() {
    let mut st = seeded(IntentStatus::RequiresConfirmation, None);
    assert_eq!(
        st.insert_payment_intent(intent(IntentStatus::Processing, None)),
        Err(StorageError::DuplicateValue)
    );
    let mut other = attempt(None);
    other.payment_id = s("pay_999");
    let r = st.update_payment_attempt(
        &other,
        router::store::PaymentAttemptUpdate::StatusUpdate { status: AttemptStatus::Charged },
    );
    assert!(matches!(r, Err(StorageError::ValueNotFound)));
    assert_eq!(find_statuses(&st), (IntentStatus::RequiresConfirmation, AttemptStatus::Started));
}

#[test]
fn error_envelope_has_stable_codes() {
    assert_eq!(ApiErrorResponse::PaymentNotFound.to_response().0, "HE_02");
    assert_eq!(ApiErrorResponse::ClientSecretInvalid.error_code(), "IR_09");
    assert_eq!(
        ApiErrorResponse::InvalidDataFormat { field: ErrorField::PaymentId }.error_code(),
        "IR_05"
    );
    assert_eq!(ApiErrorResponse::InternalServerError.error_message(), "Something went wrong");
    assert_eq!(
        StorageError::DatabaseError.to_not_found_response(ApiErrorResponse::PaymentNotFound).error_code(),
        "HE_00"
    );
    assert_eq!(
        StorageError::ValueNotFound.to_not_found_response(ApiErrorResponse::PaymentNotFound).error_code(),
        "HE_02"
    );
}

#[test]
fn terminal_intent_with_missing_rows_reports_the_missing_row() {
    // Attempt without currency: the missing-currency error comes first.
    let mut st = Store::new();
    let mut a = attempt(None);
    a.currency = None;
    assert!(st.insert_payment_intent(intent(IntentStatus::Succeeded, None)).is_ok());
    assert!(st.insert_payment_attempt(a).is_ok());
    assert!(st.insert_connector_response(response()).is_ok());
    let r = PaymentConfirm.get_trackers(&st, &PaymentIdType::PaymentIntentId(s("pay_123")), &s("m_1"), &request(), None);
    assert!(matches!(
        r,
        Err(ApiErrorResponse::MissingRequiredField { field: ErrorField::Currency })
    ));

    // No attempt at all: not found.
    let mut st = Store::new();
    assert!(st.insert_payment_intent(intent(IntentStatus::Failed, None)).is_ok());
    let r = PaymentConfirm.get_trackers(&st, &PaymentIdType::PaymentIntentId(s("pay_123")), &s("m_1"), &request(), None);
    assert!(matches!(r, Err(ApiErrorResponse::PaymentNotFound)));

    // No connector response: not found.
    let mut st = Store::new();
    assert!(st.insert_payment_intent(intent(IntentStatus::Succeeded, None)).is_ok());
    assert!(st.insert_payment_attempt(attempt(None)).is_ok());
    let r = PaymentConfirm.get_trackers(&st, &PaymentIdType::PaymentIntentId(s("pay_123")), &s("m_1"), &request(), None);
    assert!(matches!(r, Err(ApiErrorResponse::PaymentNotFound)));
}

#[test]
fn update_writes_only_the_named_fields_of_the_stored_row() {
    let mut st = seeded(IntentStatus::RequiresConfirmation, Some(AuthenticationType::NoThreeDs));
    let (mut d, _) = PaymentConfirm
        .get_trackers(&st, &PaymentIdType::PaymentIntentId(s("pay_123")), &s("m_1"), &request(), None)
        .unwrap();
    // A stale working state: fields that the updates do not name must not reach the store.
    d.payment_attempt.amount = 2;
    d.payment_attempt.txn_id = s("txn_stale");
    d.payment_intent.amount = 3;
    d.payment_intent.client_secret = Some(s("stale"));
    let d = PaymentConfirm.update_trackers(&mut st, d).unwrap();
    let a = st.find_payment_attempt_by_payment_id_merchant_id(&s("pay_123"), &s("m_1")).unwrap();
    let i = st.find_payment_intent_by_payment_id_merchant_id(&s("pay_123"), &s("m_1")).unwrap();
    assert_eq!(a.amount, 1000);
    assert_eq!(a.txn_id, s("txn_1"));
    assert_eq!(a.status, AttemptStatus::Pending);
    assert_eq!(i.amount, 1000);
    assert_eq!(i.client_secret, Some(s("secret_1")));
    assert_eq!(i.status, IntentStatus::Processing);
    assert_eq!(d.payment_attempt.amount, 1000);
    assert_eq!(d.payment_intent.amount, 1000);
}
