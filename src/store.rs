use vstd::prelude::*;

use crate::errors::StorageError;
use crate::types::{
    AttemptStatus, ConnectorResponse, IntentStatus, PaymentAttempt, PaymentIntent,
    PaymentMethodType,
};

verus! {

/// The fields of an attempt that one partial update writes.
#[derive(Debug)]
pub enum PaymentAttemptUpdate {
    ConfirmUpdate { status: AttemptStatus, payment_method: Option<PaymentMethodType> },
    StatusUpdate { status: AttemptStatus },
}

/// The fields of an intent that one partial update writes.
#[derive(Debug)]
pub enum PaymentIntentUpdate {
    MerchantStatusUpdate {
        status: IntentStatus,
        shipping_address_id: Option<String>,
        billing_address_id: Option<String>,
    },
    StatusUpdate { status: IntentStatus },
}

pub open spec fn apply_attempt_update(a: PaymentAttempt, u: PaymentAttemptUpdate) -> PaymentAttempt {
    match u {
        PaymentAttemptUpdate::ConfirmUpdate { status, payment_method } => PaymentAttempt {
            status,
            payment_method,
            ..a
        },
        PaymentAttemptUpdate::StatusUpdate { status } => PaymentAttempt { status, ..a },
    }
}

pub open spec fn apply_intent_update(i: PaymentIntent, u: PaymentIntentUpdate) -> PaymentIntent {
    match u {
        PaymentIntentUpdate::MerchantStatusUpdate {
            status,
            shipping_address_id,
            billing_address_id,
        } => PaymentIntent { status, shipping_address_id, billing_address_id, ..i },
        PaymentIntentUpdate::StatusUpdate { status } => PaymentIntent { status, ..i },
    }
}

pub open spec fn intent_matches(i: PaymentIntent, pid: Seq<char>, mid: Seq<char>) -> bool {
    i.payment_id@ == pid && i.merchant_id@ == mid
}

pub open spec fn attempt_matches(a: PaymentAttempt, pid: Seq<char>, mid: Seq<char>) -> bool {
    a.payment_id@ == pid && a.merchant_id@ == mid
}

pub open spec fn response_matches(
    c: ConnectorResponse,
    pid: Seq<char>,
    mid: Seq<char>,
    txn: Seq<char>,
) -> bool {
    c.payment_id@ == pid && c.merchant_id@ == mid && c.txn_id@ == txn
}

/// An in-memory repository of intents, attempts and connector responses, each
/// table keyed by its identifiers with no two rows under one key.
pub struct Store {
    intents: Vec<PaymentIntent>,
    attempts: Vec<PaymentAttempt>,
    responses: Vec<ConnectorResponse>,
}

impl Store {
    pub closed spec fn intents(&self) -> Seq<PaymentIntent> {
        self.intents@
    }

    pub closed spec fn attempts(&self) -> Seq<PaymentAttempt> {
        self.attempts@
    }

    pub closed spec fn responses(&self) -> Seq<ConnectorResponse> {
        self.responses@
    }

    pub open spec fn wf(&self) -> bool {
        &&& forall|i: int, j: int|
            0 <= i < j < self.intents().len() ==> !intent_matches(
                #[trigger] self.intents()[j],
                #[trigger] self.intents()[i].payment_id@,
                self.intents()[i].merchant_id@,
            )
        &&& forall|i: int, j: int|
            0 <= i < j < self.attempts().len() ==> !attempt_matches(
                #[trigger] self.attempts()[j],
                #[trigger] self.attempts()[i].payment_id@,
                self.attempts()[i].merchant_id@,
            )
        &&& forall|i: int, j: int|
            0 <= i < j < self.responses().len() ==> !response_matches(
                #[trigger] self.responses()[j],
                #[trigger] self.responses()[i].payment_id@,
                self.responses()[i].merchant_id@,
                self.responses()[i].txn_id@,
            )
    }

    pub open spec fn has_intent(&self, pid: Seq<char>, mid: Seq<char>) -> bool {
        exists|i: int| 0 <= i < self.intents().len() && intent_matches(#[trigger] self.intents()[i], pid, mid)
    }

    pub open spec fn intent_pos(&self, pid: Seq<char>, mid: Seq<char>) -> int {
        choose|i: int| 0 <= i < self.intents().len() && intent_matches(#[trigger] self.intents()[i], pid, mid)
    }

    /// The stored intent under a key, if any.
    pub open spec fn intent_at(&self, pid: Seq<char>, mid: Seq<char>) -> Option<PaymentIntent> {
        if self.has_intent(pid, mid) {
            Some(self.intents()[self.intent_pos(pid, mid)])
        } else {
            None
        }
    }

    pub open spec fn has_attempt(&self, pid: Seq<char>, mid: Seq<char>) -> bool {
        exists|i: int| 0 <= i < self.attempts().len() && attempt_matches(#[trigger] self.attempts()[i], pid, mid)
    }

    pub open spec fn attempt_pos(&self, pid: Seq<char>, mid: Seq<char>) -> int {
        choose|i: int| 0 <= i < self.attempts().len() && attempt_matches(#[trigger] self.attempts()[i], pid, mid)
    }

    /// The stored attempt under a key, if any.
    pub open spec fn attempt_at(&self, pid: Seq<char>, mid: Seq<char>) -> Option<PaymentAttempt> {
        if self.has_attempt(pid, mid) {
            Some(self.attempts()[self.attempt_pos(pid, mid)])
        } else {
            None
        }
    }

    pub open spec fn has_response(&self, pid: Seq<char>, mid: Seq<char>, txn: Seq<char>) -> bool {
        exists|i: int| 0 <= i < self.responses().len() && response_matches(#[trigger] self.responses()[i], pid, mid, txn)
    }

    pub open spec fn response_pos(&self, pid: Seq<char>, mid: Seq<char>, txn: Seq<char>) -> int {
        choose|i: int| 0 <= i < self.responses().len() && response_matches(#[trigger] self.responses()[i], pid, mid, txn)
    }

    /// The stored connector response under a key, if any.
    pub open spec fn response_at(&self, pid: Seq<char>, mid: Seq<char>, txn: Seq<char>) -> Option<ConnectorResponse> {
        if self.has_response(pid, mid, txn) {
            Some(self.responses()[self.response_pos(pid, mid, txn)])
        } else {
            None
        }
    }

    /// An empty repository.
    pub fn new() -> (r: Store)
        ensures
            r.wf(),
            r.intents().len() == 0,
            r.attempts().len() == 0,
            r.responses().len() == 0,
    {
        Store { intents: Vec::new(), attempts: Vec::new(), responses: Vec::new() }
    }

    fn intent_index(&self, pid: &String, mid: &String) -> (r: Option<usize>)
        requires
            self.wf(),
        ensures
            r.is_some() == self.has_intent(pid@, mid@),
            r.is_some() ==> r.unwrap() == self.intent_pos(pid@, mid@),
    {
        let mut i: usize = 0;
        while i < self.intents.len()
            invariant
                self.wf(),
                i <= self.intents@.len(),
                forall|k: int| 0 <= k < i ==> !intent_matches(#[trigger] self.intents@[k], pid@, mid@),
            decreases self.intents@.len() - i,
        {
            if self.intents[i].payment_id == *pid && self.intents[i].merchant_id == *mid {
                proof {
                    assert(intent_matches(self.intents()[i as int], pid@, mid@));
                    assert(self.has_intent(pid@, mid@));
                    let p = self.intent_pos(pid@, mid@);
                    if p != i as int {
                        if p < i {
                            assert(!intent_matches(self.intents()[i as int], self.intents()[p].payment_id@, self.intents()[p].merchant_id@));
                        } else {
                            assert(!intent_matches(self.intents()[p], self.intents()[i as int].payment_id@, self.intents()[i as int].merchant_id@));
                        }
                    }
                }
                return Some(i);
            }
            i = i + 1;
        }
        None
    }

    fn attempt_index(&self, pid: &String, mid: &String) -> (r: Option<usize>)
        requires
            self.wf(),
        ensures
            r.is_some() == self.has_attempt(pid@, mid@),
            r.is_some() ==> r.unwrap() == self.attempt_pos(pid@, mid@),
    {
        let mut i: usize = 0;
        while i < self.attempts.len()
            invariant
                self.wf(),
                i <= self.attempts@.len(),
                forall|k: int| 0 <= k < i ==> !attempt_matches(#[trigger] self.attempts@[k], pid@, mid@),
            decreases self.attempts@.len() - i,
        {
            if self.attempts[i].payment_id == *pid && self.attempts[i].merchant_id == *mid {
                proof {
                    assert(attempt_matches(self.attempts()[i as int], pid@, mid@));
                    assert(self.has_attempt(pid@, mid@));
                    let p = self.attempt_pos(pid@, mid@);
                    if p != i as int {
                        if p < i {
                            assert(!attempt_matches(self.attempts()[i as int], self.attempts()[p].payment_id@, self.attempts()[p].merchant_id@));
                        } else {
                            assert(!attempt_matches(self.attempts()[p], self.attempts()[i as int].payment_id@, self.attempts()[i as int].merchant_id@));
                        }
                    }
                }
                return Some(i);
            }
            i = i + 1;
        }
        None
    }

    fn response_index(&self, pid: &String, mid: &String, txn: &String) -> (r: Option<usize>)
        requires
            self.wf(),
        ensures
            r.is_some() == self.has_response(pid@, mid@, txn@),
            r.is_some() ==> r.unwrap() == self.response_pos(pid@, mid@, txn@),
    {
        let mut i: usize = 0;
        while i < self.responses.len()
            invariant
                self.wf(),
                i <= self.responses@.len(),
                forall|k: int| 0 <= k < i ==> !response_matches(#[trigger] self.responses@[k], pid@, mid@, txn@),
            decreases self.responses@.len() - i,
        {
            let c = &self.responses[i];
            if c.payment_id == *pid && c.merchant_id == *mid && c.txn_id == *txn {
                proof {
                    let ri = self.responses()[i as int];
                    assert(response_matches(ri, pid@, mid@, txn@));
                    assert(self.has_response(pid@, mid@, txn@));
                    let p = self.response_pos(pid@, mid@, txn@);
                    if p != i as int {
                        let rp = self.responses()[p];
                        if p < i {
                            assert(!response_matches(ri, rp.payment_id@, rp.merchant_id@, rp.txn_id@));
                        } else {
                            assert(!response_matches(rp, ri.payment_id@, ri.merchant_id@, ri.txn_id@));
                        }
                    }
                }
                return Some(i);
            }
            i = i + 1;
        }
        None
    }
    /// Finds the intent stored under (payment id, merchant id).
    pub fn find_payment_intent_by_payment_id_merchant_id(&self, pid: &String, mid: &String) -> (r: Result<PaymentIntent, StorageError>)
        requires
            self.wf(),
        ensures
            match self.intent_at(pid@, mid@) {
                Some(i) => r == Ok::<PaymentIntent, StorageError>(i),
                None => r == Err::<PaymentIntent, StorageError>(StorageError::ValueNotFound),
            },
    {
        match self.intent_index(pid, mid) {
            Some(k) => Ok(self.intents[k].clone()),
            None => Err(StorageError::ValueNotFound),
        }
    }

    /// Finds the attempt stored under (payment id, merchant id).
    pub fn find_payment_attempt_by_payment_id_merchant_id(&self, pid: &String, mid: &String) -> (r: Result<PaymentAttempt, StorageError>)
        requires
            self.wf(),
        ensures
            match self.attempt_at(pid@, mid@) {
                Some(a) => r == Ok::<PaymentAttempt, StorageError>(a),
                None => r == Err::<PaymentAttempt, StorageError>(StorageError::ValueNotFound),
            },
    {
        match self.attempt_index(pid, mid) {
            Some(k) => Ok(self.attempts[k].clone()),
            None => Err(StorageError::ValueNotFound),
        }
    }

    /// Finds the connector response stored under (payment id, merchant id, transaction id).
    pub fn find_connector_response_by_payment_id_merchant_id_txn_id(
        &self,
        pid: &String,
        mid: &String,
        txn: &String,
    ) -> (r: Result<ConnectorResponse, StorageError>)
        requires
            self.wf(),
        ensures
            match self.response_at(pid@, mid@, txn@) {
                Some(c) => r == Ok::<ConnectorResponse, StorageError>(c),
                None => r == Err::<ConnectorResponse, StorageError>(StorageError::ValueNotFound),
            },
    {
        match self.response_index(pid, mid, txn) {
            Some(k) => Ok(self.responses[k].clone()),
            None => Err(StorageError::ValueNotFound),
        }
    }

    /// Adds an intent under a key not yet taken.
    pub fn insert_payment_intent(&mut self, intent: PaymentIntent) -> (r: Result<(), StorageError>)
        requires
            old(self).wf(),
        ensures
            final(self).wf(),
            old(self).has_intent(intent.payment_id@, intent.merchant_id@) ==> r == Err::<(), StorageError>(StorageError::DuplicateValue) && *final(self) == *old(self),
            !old(self).has_intent(intent.payment_id@, intent.merchant_id@) ==> r == Ok::<(), StorageError>(()) && final(self).intents() == old(self).intents().push(intent),
            final(self).attempts() == old(self).attempts(),
            final(self).responses() == old(self).responses(),
    {
        if self.intent_index(&intent.payment_id, &intent.merchant_id).is_some() {
            return Err(StorageError::DuplicateValue);
        }
        let ghost pre = self.intents@;
        self.intents.push(intent);
        proof {
            assert forall|i: int, j: int| 0 <= i < j < self.intents().len() implies !intent_matches(
                #[trigger] self.intents()[j], #[trigger] self.intents()[i].payment_id@, self.intents()[i].merchant_id@) by {
                if j == pre.len() {
                    assert(!intent_matches(pre[i], intent.payment_id@, intent.merchant_id@));
                }
            }
        }
        Ok(())
    }

    /// Adds an attempt under a key not yet taken.
    pub fn insert_payment_attempt(&mut self, attempt: PaymentAttempt) -> (r: Result<(), StorageError>)
        requires
            old(self).wf(),
        ensures
            final(self).wf(),
            old(self).has_attempt(attempt.payment_id@, attempt.merchant_id@) ==> r == Err::<(), StorageError>(StorageError::DuplicateValue) && *final(self) == *old(self),
            !old(self).has_attempt(attempt.payment_id@, attempt.merchant_id@) ==> r == Ok::<(), StorageError>(()) && final(self).attempts() == old(self).attempts().push(attempt),
            final(self).intents() == old(self).intents(),
            final(self).responses() == old(self).responses(),
    {
        if self.attempt_index(&attempt.payment_id, &attempt.merchant_id).is_some() {
            return Err(StorageError::DuplicateValue);
        }
        let ghost pre = self.attempts@;
        self.attempts.push(attempt);
        proof {
            assert forall|i: int, j: int| 0 <= i < j < self.attempts().len() implies !attempt_matches(
                #[trigger] self.attempts()[j], #[trigger] self.attempts()[i].payment_id@, self.attempts()[i].merchant_id@) by {
                if j == pre.len() {
                    assert(!attempt_matches(pre[i], attempt.payment_id@, attempt.merchant_id@));
                }
            }
        }
        Ok(())
    }

    /// Adds a connector response under a key not yet taken.
    pub fn insert_connector_response(&mut self, resp: ConnectorResponse) -> (r: Result<(), StorageError>)
        requires
            old(self).wf(),
        ensures
            final(self).wf(),
            old(self).has_response(resp.payment_id@, resp.merchant_id@, resp.txn_id@) ==> r == Err::<(), StorageError>(StorageError::DuplicateValue) && *final(self) == *old(self),
            !old(self).has_response(resp.payment_id@, resp.merchant_id@, resp.txn_id@) ==> r == Ok::<(), StorageError>(()) && final(self).responses() == old(self).responses().push(resp),
            final(self).intents() == old(self).intents(),
            final(self).attempts() == old(self).attempts(),
    {
        if self.response_index(&resp.payment_id, &resp.merchant_id, &resp.txn_id).is_some() {
            return Err(StorageError::DuplicateValue);
        }
        let ghost pre = self.responses@;
        self.responses.push(resp);
        proof {
            assert forall|i: int, j: int| 0 <= i < j < self.responses().len() implies !response_matches(
                #[trigger] self.responses()[j], #[trigger] self.responses()[i].payment_id@,
                self.responses()[i].merchant_id@, self.responses()[i].txn_id@) by {
                if j == pre.len() {
                    assert(!response_matches(pre[i], resp.payment_id@, resp.merchant_id@, resp.txn_id@));
                }
            }
        }
        Ok(())
    }

    /// Writes only the fields named by `update` on the attempt stored under the
    /// key of `this`; every other stored field stays as it was. Returns the row as
    /// written.
    pub fn update_payment_attempt(&mut self, this: &PaymentAttempt, update: PaymentAttemptUpdate) -> (r: Result<PaymentAttempt, StorageError>)
        requires
            old(self).wf(),
        ensures
            final(self).wf(),
            final(self).intents() == old(self).intents(),
            final(self).responses() == old(self).responses(),
            old(self).has_attempt(this.payment_id@, this.merchant_id@) ==> ({
                let p = old(self).attempt_pos(this.payment_id@, this.merchant_id@);
                let row = apply_attempt_update(old(self).attempts()[p], update);
                r == Ok::<PaymentAttempt, StorageError>(row) && final(self).attempts() == old(self).attempts().update(p, row)
            }),
            !old(self).has_attempt(this.payment_id@, this.merchant_id@) ==> r == Err::<PaymentAttempt, StorageError>(StorageError::ValueNotFound) && *final(self) == *old(self),
    {
        match self.attempt_index(&this.payment_id, &this.merchant_id) {
            None => Err(StorageError::ValueNotFound),
            Some(k) => {
                let mut row = self.attempts[k].clone();
                match update {
                    PaymentAttemptUpdate::ConfirmUpdate { status, payment_method } => {
                        row.status = status;
                        row.payment_method = payment_method;
                    },
                    PaymentAttemptUpdate::StatusUpdate { status } => {
                        row.status = status;
                    },
                }
                let ghost pre = self.attempts@;
                self.attempts.set(k, row.clone());
                proof {
                    assert forall|i: int, j: int| 0 <= i < j < self.attempts().len() implies !attempt_matches(
                        #[trigger] self.attempts()[j], #[trigger] self.attempts()[i].payment_id@, self.attempts()[i].merchant_id@) by {
                        assert(!attempt_matches(pre[j], pre[i].payment_id@, pre[i].merchant_id@));
                    }
                }
                Ok(row)
            },
        }
    }

    /// Writes only the fields named by `update` on the intent stored under the
    /// key of `this`; every other stored field stays as it was. Returns the row as
    /// written.
    pub fn update_payment_intent(&mut self, this: &PaymentIntent, update: PaymentIntentUpdate) -> (r: Result<PaymentIntent, StorageError>)
        requires
            old(self).wf(),
        ensures
            final(self).wf(),
            final(self).attempts() == old(self).attempts(),
            final(self).responses() == old(self).responses(),
            old(self).has_intent(this.payment_id@, this.merchant_id@) ==> ({
                let p = old(self).intent_pos(this.payment_id@, this.merchant_id@);
                let row = apply_intent_update(old(self).intents()[p], update);
                r == Ok::<PaymentIntent, StorageError>(row) && final(self).intents() == old(self).intents().update(p, row)
            }),
            !old(self).has_intent(this.payment_id@, this.merchant_id@) ==> r == Err::<PaymentIntent, StorageError>(StorageError::ValueNotFound) && *final(self) == *old(self),
    {
        match self.intent_index(&this.payment_id, &this.merchant_id) {
            None => Err(StorageError::ValueNotFound),
            Some(k) => {
                let mut row = self.intents[k].clone();
                match update {
                    PaymentIntentUpdate::MerchantStatusUpdate { status, shipping_address_id, billing_address_id } => {
                        row.status = status;
                        row.shipping_address_id = shipping_address_id;
                        row.billing_address_id = billing_address_id;
                    },
                    PaymentIntentUpdate::StatusUpdate { status } => {
                        row.status = status;
                    },
                }
                let ghost pre = self.intents@;
                self.intents.set(k, row.clone());
                proof {
                    assert forall|i: int, j: int| 0 <= i < j < self.intents().len() implies !intent_matches(
                        #[trigger] self.intents()[j], #[trigger] self.intents()[i].payment_id@, self.intents()[i].merchant_id@) by {
                        assert(!intent_matches(pre[j], pre[i].payment_id@, pre[i].merchant_id@));
                    }
                }
                Ok(row)
            },
        }
    }
}

} // verus!
