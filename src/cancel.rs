use vstd::prelude::*;

use crate::errors::{ApiErrorResponse, ConnectorError, ErrorField};
use crate::store::{PaymentAttemptUpdate, PaymentIntentUpdate, Store};
use crate::types::{
    AttemptStatus, CallConnectorAction, Currency, Flow, IntentStatus, MerchantAccount,
    PaymentAttempt, PaymentData, PaymentIntent,
};

verus! {

/// The request half of a cancel call.
#[derive(Debug)]
pub struct PaymentsCancelData {
    pub connector_transaction_id: String,
}

/// The uniform shape of a connector's answer.
#[derive(Debug)]
pub struct PaymentsResponseData {
    pub resource_id: Option<String>,
    pub status: AttemptStatus,
}

/// The flow invocation record of one cancel call: request and, once answered,
/// response.
#[derive(Debug)]
pub struct PaymentRouterCancelData {
    pub flow: Flow,
    pub merchant_id: String,
    pub connector: String,
    pub payment_id: String,
    pub attempt_id: String,
    pub status: AttemptStatus,
    pub amount: i64,
    pub currency: Currency,
    pub request: PaymentsCancelData,
    pub response: Option<PaymentsResponseData>,
}

impl Clone for PaymentsResponseData {
    fn clone(&self) -> (r: Self)
        ensures
            r == *self,
    {
        PaymentsResponseData {
            resource_id: crate::types::clone_opt_string(&self.resource_id),
            status: self.status,
        }
    }
}

impl Clone for PaymentRouterCancelData {
    fn clone(&self) -> (r: Self)
        ensures
            r == *self,
    {
        PaymentRouterCancelData {
            flow: self.flow,
            merchant_id: self.merchant_id.clone(),
            connector: self.connector.clone(),
            payment_id: self.payment_id.clone(),
            attempt_id: self.attempt_id.clone(),
            status: self.status,
            amount: self.amount,
            currency: self.currency,
            request: PaymentsCancelData {
                connector_transaction_id: self.request.connector_transaction_id.clone(),
            },
            response: match &self.response {
                Some(r) => Some(r.clone()),
                None => None,
            },
        }
    }
}

/// The record after the connector's answer has been merged into it.
pub open spec fn with_response(rd: PaymentRouterCancelData, resp: PaymentsResponseData) -> PaymentRouterCancelData {
    PaymentRouterCancelData { status: resp.status, response: Some(resp), ..rd }
}

/// What the execution engine yields for an action and the outcome of the remote
/// call (`None`: no answer was obtained at all).
pub open spec fn execute_spec(
    rd: PaymentRouterCancelData,
    action: CallConnectorAction,
    outcome: Option<Result<PaymentsResponseData, ConnectorError>>,
) -> Result<PaymentRouterCancelData, ConnectorError> {
    match action {
        CallConnectorAction::Skip => Ok(rd),
        CallConnectorAction::Trigger => match outcome {
            Some(Ok(resp)) => Ok(with_response(rd, resp)),
            Some(Err(e)) => Err(e),
            None => Err(ConnectorError::ProcessingStepFailed),
        },
    }
}

/// What the dispatcher yields: the engine's result with connector failures
/// normalised into "payment failed".
pub open spec fn decide_flow_spec(
    rd: PaymentRouterCancelData,
    action: CallConnectorAction,
    outcome: Option<Result<PaymentsResponseData, ConnectorError>>,
) -> Result<PaymentRouterCancelData, ApiErrorResponse> {
    match execute_spec(rd, action, outcome) {
        Ok(r) => Ok(r),
        Err(e) => Err(e.payment_failed_spec()),
    }
}

/// Whether the caller must perform the remote call before handing its outcome in.
pub fn needs_connector_call(action: CallConnectorAction) -> (r: bool)
    ensures
        r == (action == CallConnectorAction::Trigger),
{
    match action {
        CallConnectorAction::Trigger => true,
        CallConnectorAction::Skip => false,
    }
}

/// Execution engine: with `Skip` the record comes back unchanged and the outcome
/// is not looked at; with `Trigger` the one remote call's outcome is merged in, or
/// its failure returned.
pub fn execute_connector_processing_step(
    router_data: &PaymentRouterCancelData,
    call_connector_action: CallConnectorAction,
    outcome: Option<Result<PaymentsResponseData, ConnectorError>>,
) -> (r: Result<PaymentRouterCancelData, ConnectorError>)
    ensures
        r == execute_spec(*router_data, call_connector_action, outcome),
{
    match call_connector_action {
        CallConnectorAction::Skip => Ok(router_data.clone()),
        CallConnectorAction::Trigger => match outcome {
            Some(Ok(resp)) => {
                let mut rd = router_data.clone();
                rd.status = resp.status;
                rd.response = Some(resp);
                Ok(rd)
            },
            Some(Err(e)) => Err(e),
            None => Err(ConnectorError::ProcessingStepFailed),
        },
    }
}

impl PaymentRouterCancelData {
    /// Runs one cancel call through the execution engine and normalises its failure.
    pub fn decide_flow(
        &self,
        call_connector_action: CallConnectorAction,
        outcome: Option<Result<PaymentsResponseData, ConnectorError>>,
    ) -> (r: Result<PaymentRouterCancelData, ApiErrorResponse>)
        ensures
            r == decide_flow_spec(*self, call_connector_action, outcome),
    {
        match execute_connector_processing_step(self, call_connector_action, outcome) {
            Ok(rd) => Ok(rd),
            Err(e) => Err(e.to_payment_failed_response()),
        }
    }

    /// The dispatcher's entry: the call's result paired with the working state,
    /// which comes back whatever the remote outcome.
    pub fn decide_flows(
        self,
        payment_data: PaymentData,
        call_connector_action: CallConnectorAction,
        outcome: Option<Result<PaymentsResponseData, ConnectorError>>,
    ) -> (r: (Result<PaymentRouterCancelData, ApiErrorResponse>, PaymentData))
        ensures
            r.0 == decide_flow_spec(self, call_connector_action, outcome),
            r.1 == payment_data,
    {
        let resp = self.decide_flow(call_connector_action, outcome);
        (resp, payment_data)
    }
}

impl PaymentData {
    /// Builds the cancel call's record from the working state.
    pub fn construct_r_d(&self, connector_id: &String, merchant_account: &MerchantAccount) -> (r: Result<PaymentRouterCancelData, ApiErrorResponse>)
        ensures
            match self.connector_response.connector_transaction_id {
                None => r == Err::<PaymentRouterCancelData, ApiErrorResponse>(
                    ApiErrorResponse::MissingRequiredField { field: ErrorField::ConnectorTransactionId },
                ),
                Some(t) => r.is_ok() && ({
                    let rd = r->Ok_0;
                    &&& rd.flow == Flow::Void
                    &&& rd.merchant_id == merchant_account.merchant_id
                    &&& rd.connector == *connector_id
                    &&& rd.payment_id == self.payment_attempt.payment_id
                    &&& rd.attempt_id == self.payment_attempt.txn_id
                    &&& rd.status == self.payment_attempt.status
                    &&& rd.amount == self.amount
                    &&& rd.currency == self.currency
                    &&& rd.request.connector_transaction_id == t
                    &&& rd.response.is_none()
                }),
            },
    {
        let txn = match &self.connector_response.connector_transaction_id {
            Some(t) => t.clone(),
            None => {
                return Err(ApiErrorResponse::MissingRequiredField { field: ErrorField::ConnectorTransactionId });
            },
        };
        Ok(PaymentRouterCancelData {
            flow: Flow::Void,
            merchant_id: merchant_account.merchant_id.clone(),
            connector: connector_id.clone(),
            payment_id: self.payment_attempt.payment_id.clone(),
            attempt_id: self.payment_attempt.txn_id.clone(),
            status: self.payment_attempt.status,
            amount: self.amount,
            currency: self.currency,
            request: PaymentsCancelData { connector_transaction_id: txn },
            response: None,
        })
    }
}

/// Cancel's transition table, from the dispatcher's result: a failed or
/// unanswered call fails the payment; an answer that voided it cancels the
/// payment; an answer that did not void it records the failed void. A skipped
/// call carries no connector decision and changes nothing.
pub open spec fn cancel_transition(
    flow_result: Result<PaymentRouterCancelData, ApiErrorResponse>,
) -> Option<(IntentStatus, AttemptStatus)> {
    match flow_result {
        Err(_) => Some((IntentStatus::Failed, AttemptStatus::Failure)),
        Ok(rd) => match rd.response {
            None => None,
            Some(resp) => if resp.status == AttemptStatus::Voided {
                Some((IntentStatus::Cancelled, AttemptStatus::Voided))
            } else {
                Some((IntentStatus::Failed, AttemptStatus::VoidFailed))
            },
        },
    }
}

/// The status pairs that Cancel may produce.
pub open spec fn cancel_sanctioned(pair: (IntentStatus, AttemptStatus)) -> bool {
    pair == (IntentStatus::Cancelled, AttemptStatus::Voided)
        || pair == (IntentStatus::Failed, AttemptStatus::Failure)
        || pair == (IntentStatus::Failed, AttemptStatus::VoidFailed)
}

pub fn cancel_status_transition(
    flow_result: &Result<PaymentRouterCancelData, ApiErrorResponse>,
) -> (r: Option<(IntentStatus, AttemptStatus)>)
    ensures
        r == cancel_transition(*flow_result),
        r matches Some(pair) ==> cancel_sanctioned(pair),
{
    match flow_result {
        Err(_) => Some((IntentStatus::Failed, AttemptStatus::Failure)),
        Ok(rd) => match &rd.response {
            None => None,
            Some(resp) => match resp.status {
                AttemptStatus::Voided => Some((IntentStatus::Cancelled, AttemptStatus::Voided)),
                _ => Some((IntentStatus::Failed, AttemptStatus::VoidFailed)),
            },
        },
    }
}

/// The Cancel operation.
#[derive(Debug, Clone, Copy)]
pub struct PaymentCancel;

impl PaymentCancel {
    /// UpdateTracker stage: persists the status pair that Cancel's table gives for
    /// the dispatcher's result, writing only the status of the stored attempt and
    /// then of the stored intent. Where the table gives no pair nothing is written.
    pub fn update_trackers(
        &self,
        store: &mut Store,
        payment_data: PaymentData,
        flow_result: &Result<PaymentRouterCancelData, ApiErrorResponse>,
    ) -> (r: Result<PaymentData, ApiErrorResponse>)
        requires
            old(store).wf(),
        ensures
            final(store).wf(),
            match cancel_transition(*flow_result) {
                None => r == Ok::<PaymentData, ApiErrorResponse>(payment_data) && *final(store) == *old(store),
                Some((istatus, astatus)) => {
                    let a = payment_data.payment_attempt;
                    let i = payment_data.payment_intent;
                    let pa = old(store).attempt_pos(a.payment_id@, a.merchant_id@);
                    let pi = old(store).intent_pos(i.payment_id@, i.merchant_id@);
                    let a2 = PaymentAttempt { status: astatus, ..old(store).attempts()[pa] };
                    let i2 = PaymentIntent { status: istatus, ..old(store).intents()[pi] };
                    if !old(store).has_attempt(a.payment_id@, a.merchant_id@) {
                        r == Err::<PaymentData, ApiErrorResponse>(ApiErrorResponse::PaymentNotFound)
                            && *final(store) == *old(store)
                    } else if !old(store).has_intent(i.payment_id@, i.merchant_id@) {
                        r == Err::<PaymentData, ApiErrorResponse>(ApiErrorResponse::PaymentNotFound)
                            && final(store).attempts() == old(store).attempts().update(pa, a2)
                            && final(store).intents() == old(store).intents()
                            && final(store).responses() == old(store).responses()
                    } else {
                        r.is_ok()
                            && r->Ok_0 == (PaymentData { payment_attempt: a2, payment_intent: i2, ..payment_data })
                            && final(store).attempts() == old(store).attempts().update(pa, a2)
                            && final(store).intents() == old(store).intents().update(pi, i2)
                            && final(store).responses() == old(store).responses()
                    }
                },
            },
    {
        let mut payment_data = payment_data;
        let (intent_status, attempt_status) = match cancel_status_transition(flow_result) {
            Some(pair) => pair,
            None => return Ok(payment_data),
        };
        payment_data.payment_attempt = match store.update_payment_attempt(
            &payment_data.payment_attempt,
            PaymentAttemptUpdate::StatusUpdate { status: attempt_status },
        ) {
            Ok(a) => a,
            Err(e) => return Err(e.to_not_found_response(ApiErrorResponse::PaymentNotFound)),
        };
        payment_data.payment_intent = match store.update_payment_intent(
            &payment_data.payment_intent,
            PaymentIntentUpdate::StatusUpdate { status: intent_status },
        ) {
            Ok(i) => i,
            Err(e) => return Err(e.to_not_found_response(ApiErrorResponse::PaymentNotFound)),
        };
        Ok(payment_data)
    }
}

} // verus!
