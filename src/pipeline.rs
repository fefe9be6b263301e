use vstd::prelude::*;

use crate::cancel::{
    cancel_transition, decide_flow_spec, PaymentRouterCancelData, PaymentsResponseData,
};
use crate::confirm::{
    confirm_transition, confirm_working_state, is_terminal, trackers_error, validate_error,
    validated_payment_id, PaymentConfirm,
};
use crate::errors::{ApiErrorResponse, ConnectorError, ErrorField};
use crate::helpers::{client_secret_mismatch, prefer_request};
use crate::store::{attempt_matches, intent_matches, Store};
use crate::types::{
    CallConnectorAction, CustomerDetails, IntentStatus, AttemptStatus, MandateTxnType,
    MerchantAccount, PaymentAttempt, PaymentData, PaymentIntent, PaymentsRequest,
};

verus! {

/// The error, if any, with which a Confirm run stops before writing anything.
pub open spec fn confirm_error(st: Store, req: PaymentsRequest, account: MerchantAccount, fresh: Seq<char>) -> Option<ApiErrorResponse> {
    match validate_error(req, account) {
        Some(e) => Some(e),
        None => trackers_error(st, Some(validated_payment_id(req, fresh)), account.merchant_id@, req),
    }
}

/// After a row under a key is replaced by one with the same key, the key finds it.
proof fn lemma_intent_replaced(s1: Store, s2: Store, pid: Seq<char>, mid: Seq<char>, x: PaymentIntent)
    requires
        s1.wf(),
        s2.wf(),
        s1.has_intent(pid, mid),
        intent_matches(x, pid, mid),
        s2.intents() == s1.intents().update(s1.intent_pos(pid, mid), x),
    ensures
        s2.intent_at(pid, mid) == Some(x),
{
    let p = s1.intent_pos(pid, mid);
    assert(intent_matches(s2.intents()[p], pid, mid));
    assert(s2.has_intent(pid, mid));
    let q = s2.intent_pos(pid, mid);
    if q != p {
        if q < p {
            assert(!intent_matches(s2.intents()[p], s2.intents()[q].payment_id@, s2.intents()[q].merchant_id@));
        } else {
            assert(!intent_matches(s2.intents()[q], s2.intents()[p].payment_id@, s2.intents()[p].merchant_id@));
        }
    }
}

proof fn lemma_attempt_replaced(s1: Store, s2: Store, pid: Seq<char>, mid: Seq<char>, x: PaymentAttempt)
    requires
        s1.wf(),
        s2.wf(),
        s1.has_attempt(pid, mid),
        attempt_matches(x, pid, mid),
        s2.attempts() == s1.attempts().update(s1.attempt_pos(pid, mid), x),
    ensures
        s2.attempt_at(pid, mid) == Some(x),
{
    let p = s1.attempt_pos(pid, mid);
    assert(attempt_matches(s2.attempts()[p], pid, mid));
    assert(s2.has_attempt(pid, mid));
    let q = s2.attempt_pos(pid, mid);
    if q != p {
        if q < p {
            assert(!attempt_matches(s2.attempts()[p], s2.attempts()[q].payment_id@, s2.attempts()[q].merchant_id@));
        } else {
            assert(!attempt_matches(s2.attempts()[q], s2.attempts()[p].payment_id@, s2.attempts()[p].merchant_id@));
        }
    }
}

/// Runs Confirm's stages in order: Validate, GetTracker, UpdateTracker. A run that
/// stops early writes nothing; a run that completes leaves the stored intent and
/// attempt in the pair that Confirm's table gives for the attempt's
/// authentication type.
pub fn run_confirm(
    store: &mut Store,
    request: &PaymentsRequest,
    merchant_account: &MerchantAccount,
    fresh: &String,
) -> (r: Result<PaymentData, ApiErrorResponse>)
    requires
        old(store).wf(),
    ensures
        final(store).wf(),
        match confirm_error(*old(store), *request, *merchant_account, fresh@) {
            Some(e) => r == Err::<PaymentData, ApiErrorResponse>(e) && *final(store) == *old(store),
            None => {
                let id = validated_payment_id(*request, fresh@);
                let mid = merchant_account.merchant_id@;
                let a = old(store).attempt_at(id, mid)->Some_0;
                let (istatus, astatus) = confirm_transition(a.authentication_type);
                let i = old(store).intent_at(id, mid)->Some_0;
                let a2 = PaymentAttempt {
                    status: astatus,
                    payment_method: prefer_request(request.payment_method, a.payment_method),
                    ..a
                };
                let i2 = PaymentIntent {
                    status: istatus,
                    shipping_address_id: prefer_request(request.shipping_address_id, i.shipping_address_id),
                    billing_address_id: prefer_request(request.billing_address_id, i.billing_address_id),
                    ..i
                };
                &&& r.is_ok()
                &&& final(store).intent_at(id, mid) == Some(i2)
                &&& final(store).attempt_at(id, mid) == Some(a2)
                &&& final(store).intents() == old(store).intents().update(old(store).intent_pos(id, mid), i2)
                &&& final(store).attempts() == old(store).attempts().update(old(store).attempt_pos(id, mid), a2)
                &&& final(store).responses() == old(store).responses()
                &&& r->Ok_0.payment_intent == i2
                &&& r->Ok_0.payment_attempt == a2
                &&& r->Ok_0.amount == a.amount
                &&& r->Ok_0.currency == a.currency->Some_0
            },
        },
{
    let op = PaymentConfirm;
    let (merchant_id, payment_id, mandate_type) = op.validate_request(request, merchant_account, fresh)?;
    let (payment_data, _customer) = op.get_trackers(store, &payment_id, &merchant_id, request, mandate_type)?;
    let ghost s1 = *store;
    let ghost d = payment_data;
    let r = op.update_trackers(store, payment_data);
    proof {
        let id = validated_payment_id(*request, fresh@);
        let mid = merchant_account.merchant_id@;
        let (istatus, astatus) = confirm_transition(d.payment_attempt.authentication_type);
        let a = s1.attempts()[s1.attempt_pos(id, mid)];
        let i = s1.intents()[s1.intent_pos(id, mid)];
        let a2 = PaymentAttempt { status: astatus, payment_method: d.payment_attempt.payment_method, ..a };
        let i2 = PaymentIntent {
            status: istatus,
            shipping_address_id: d.payment_intent.shipping_address_id,
            billing_address_id: d.payment_intent.billing_address_id,
            ..i
        };
        assert(a2 == PaymentAttempt { status: astatus, ..d.payment_attempt });
        assert(i2 == PaymentIntent { status: istatus, ..d.payment_intent });
        lemma_attempt_replaced(s1, *store, id, mid, a2);
        lemma_intent_replaced(s1, *store, id, mid, i2);
    }
    r
}

/// A Confirm on an intent that has already succeeded or failed is refused with the
/// terminal-state validation error, once the request has passed validation,
/// carries no contradicting client secret, and the payment's attempt (with its
/// currency) and connector response are stored.
pub proof fn confirm_rejects_terminal_intent(st: Store, req: PaymentsRequest, account: MerchantAccount, fresh: Seq<char>)
    requires
        st.wf(),
        validate_error(req, account).is_none(),
        st.intent_at(validated_payment_id(req, fresh), account.merchant_id@).is_some(),
        is_terminal(st.intent_at(validated_payment_id(req, fresh), account.merchant_id@)->Some_0.status),
        !client_secret_mismatch(req.client_secret, st.intent_at(validated_payment_id(req, fresh), account.merchant_id@)->Some_0.client_secret),
        st.attempt_at(validated_payment_id(req, fresh), account.merchant_id@).is_some(),
        st.attempt_at(validated_payment_id(req, fresh), account.merchant_id@)->Some_0.currency.is_some(),
        ({
            let a = st.attempt_at(validated_payment_id(req, fresh), account.merchant_id@)->Some_0;
            st.response_at(a.payment_id@, a.merchant_id@, a.txn_id@).is_some()
        }),
    ensures
        confirm_error(st, req, account, fresh) == Some(ApiErrorResponse::InvalidDataFormat { field: ErrorField::PaymentId }),
{
}

/// An attempt just added to the store comes back from GetTracker with the amount
/// and currency it was stored with.
pub proof fn trackers_round_trip(
    before: Store,
    after: Store,
    attempt: PaymentAttempt,
    req: PaymentsRequest,
    mandate_type: Option<MandateTxnType>,
    d: PaymentData,
    c: CustomerDetails,
)
    requires
        before.wf(),
        after.wf(),
        !before.has_attempt(attempt.payment_id@, attempt.merchant_id@),
        after.attempts() == before.attempts().push(attempt),
        confirm_working_state(after, attempt.payment_id@, attempt.merchant_id@, req, mandate_type, d, c),
    ensures
        d.payment_attempt.amount == attempt.amount,
        d.payment_attempt.currency == attempt.currency,
        d.amount == attempt.amount,
        d.currency == attempt.currency->Some_0,
{
    let n = before.attempts().len() as int;
    let (pid, mid) = (attempt.payment_id@, attempt.merchant_id@);
    assert(attempt_matches(after.attempts()[n], pid, mid));
    assert(after.has_attempt(pid, mid));
    let q = after.attempt_pos(pid, mid);
    if q != n {
        assert(before.attempts()[q] == after.attempts()[q]);
        assert(attempt_matches(before.attempts()[q], pid, mid));
    }
}

/// With the skip action the dispatcher needs no remote call and hands back the
/// record as it was, whatever outcome is offered; on a working state read with a
/// request that supplies no overriding values, that state is the stored intent and
/// attempt.
pub proof fn skip_returns_persisted_state(
    st: Store,
    id: Seq<char>,
    mid: Seq<char>,
    req: PaymentsRequest,
    mandate_type: Option<MandateTxnType>,
    d: PaymentData,
    c: CustomerDetails,
    rd: PaymentRouterCancelData,
    outcome: Option<Result<PaymentsResponseData, ConnectorError>>,
)
    requires
        st.wf(),
        confirm_working_state(st, id, mid, req, mandate_type, d, c),
        req.payment_method.is_none(),
        req.shipping_address_id.is_none(),
        req.billing_address_id.is_none(),
    ensures
        decide_flow_spec(rd, CallConnectorAction::Skip, outcome) == Ok::<PaymentRouterCancelData, ApiErrorResponse>(rd),
        d.payment_intent == st.intent_at(id, mid)->Some_0,
        d.payment_attempt == st.attempt_at(id, mid)->Some_0,
{
}

/// When the cancel call fails or yields no answer, the dispatcher reports
/// "payment failed" and Cancel's table then maps the payment to the failed pair,
/// never the prior in-flight status.
pub proof fn cancel_failure_fails_payment(
    rd: PaymentRouterCancelData,
    outcome: Option<Result<PaymentsResponseData, ConnectorError>>,
)
    requires
        outcome.is_none() || outcome->Some_0.is_err(),
    ensures
        decide_flow_spec(rd, CallConnectorAction::Trigger, outcome) is Err,
        decide_flow_spec(rd, CallConnectorAction::Trigger, outcome)->Err_0 is PaymentFailed,
        cancel_transition(decide_flow_spec(rd, CallConnectorAction::Trigger, outcome))
            == Some((IntentStatus::Failed, AttemptStatus::Failure)),
{
}

} // verus!
