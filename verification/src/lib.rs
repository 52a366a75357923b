//! Verified core of a milestone-based escrow between a company (`empresa`),
//! a freelancer and an arbiter (`arbitro`).
//!
//! [`contract`] holds each operation as a decision on the stored escrow.
//! [`FreelancerEscrow`] is the contract's storage with every call decided to
//! the end for a given set of signers; the token transfers a call returns are
//! carried out by its caller. [`laws`] states and proves what
//! holds across operations.

pub mod contract;
pub mod errors;
pub mod laws;
pub mod operation_laws;
pub mod types;

pub use errors::Error;

use vstd::prelude::*;

use contract::{
    apply_spec, apply_update, approve_milestone, approve_plan, auth_outcome, cancel, cancel_plan,
    check_auth, deposit, deposit_plan, dispute, dispute_plan, initialize, initialize_plan,
    query_escrow, release, release_plan, resolve, resolve_plan,
};
use laws::{escrow_wf, lemma_initialize_wf, lemma_operations_keep_wf, storage_wf};
use types::{Action, ActionView, Escrow, EscrowView, Failure, Hito, OpeningView, Plan, PlanView, Signers, result_view, stored_view};

verus! {

/// What a call comes to when the operation decided `plan` on `storage` and
/// `signers` authorized it: the storage afterwards and the call's result.
/// A call that does not succeed leaves the storage as it was.
pub open spec fn call_outcome<A, D>(
    storage: Option<EscrowView<A, D>>,
    plan: PlanView,
    signers: Signers,
) -> (Option<EscrowView<A, D>>, Result<ActionView, Failure>) {
    match auth_outcome(plan.auth, signers) {
        Err(f) => (storage, Err(f)),
        Ok(_) => match plan.result {
            Err(f) => (storage, Err(f)),
            Ok(a) => (
                match storage {
                    Some(e) => Some(apply_spec(e, a.update)),
                    None => None,
                },
                Ok(a),
            ),
        },
    }
}

/// What an `initialize` call comes to when the company named in it and the other
/// signers are `signers`: the storage afterwards and the call's result.
pub open spec fn opening_outcome<A, D>(
    storage: Option<EscrowView<A, D>>,
    plan: OpeningView<A, D>,
    signers: Signers,
) -> (Option<EscrowView<A, D>>, Result<ActionView, Failure>) {
    match auth_outcome(plan.auth, signers) {
        Err(f) => (storage, Err(f)),
        Ok(_) => match plan.result {
            Err(f) => (storage, Err(f)),
            Ok((e, a)) => (Some(e), Ok(a)),
        },
    }
}

/// The escrow contract's storage, and each call as the contract decides it for
/// a given set of signers. Every call either succeeds and writes its update, or
/// leaves the storage untouched. The token transfers a successful call returns
/// are for its caller to carry out; a transfer the token contract refuses
/// aborts the real call, which this type does not model.
pub struct FreelancerEscrow<A, D> {
    stored: Option<Escrow<A, D>>,
}

impl<A, D> View for FreelancerEscrow<A, D> {
    type V = Option<EscrowView<A, D>>;

    closed spec fn view(&self) -> Option<EscrowView<A, D>> {
        stored_view(self.stored)
    }
}

impl<A, D> FreelancerEscrow<A, D> {
    #[verifier::type_invariant]
    spec fn inv(self) -> bool {
        storage_wf(stored_view(self.stored))
    }

    /// A contract whose storage is empty.
    pub fn new() -> (c: Self)
        ensures
            c@ is None,
    {
        FreelancerEscrow { stored: None }
    }

    /// Carries out a decided plan: demands the authorization, then writes the update.
    fn run(&mut self, plan: Plan, signers: &Signers) -> (r: Result<Action, Failure>)
        requires
            plan@.result matches Ok(a) ==> (old(self)@ matches Some(e) && escrow_wf(
                apply_spec(e, a.update),
            )),
        ensures
            (final(self)@, result_view(r)) == call_outcome(old(self)@, plan@, *signers),
            storage_wf(final(self)@),
    {
        proof {
            use_type_invariant(&*self);
        }
        if let Err(f) = check_auth(&plan.auth, signers) {
            return Err(f);
        }
        match plan.result {
            Err(f) => Err(f),
            Ok(action) => {
                let mut stored: Option<Escrow<A, D>> = None;
                std::mem::swap(&mut stored, &mut self.stored);
                if let Some(e) = &mut stored {
                    apply_update(e, &action.update);
                }
                self.stored = stored;
                Ok(action)
            },
        }
    }

    /// `initialize(...)` called with the given signatures: the decision of
    /// `contract::initialize` carried out, the company being the one named in the call.
    pub fn initialize(
        &mut self,
        signers: &Signers,
        empresa: A,
        freelancer: A,
        arbitro: A,
        token: A,
        hitos: Vec<Hito<D>>,
        created_at: u64,
    ) -> (r: Result<Action, Failure>)
        ensures
            (final(self)@, result_view(r)) == opening_outcome(
                old(self)@,
                initialize_plan(old(self)@, empresa, freelancer, arbitro, token, hitos@, created_at),
                *signers,
            ),
            storage_wf(final(self)@),
    {
        proof {
            use_type_invariant(&*self);
        }
        let ghost args = (self@, empresa, freelancer, arbitro, token, hitos@);
        assert(args.5.len() == hitos.len());
        let opening = initialize(&self.stored, empresa, freelancer, arbitro, token, hitos, created_at);
        if let Err(f) = check_auth(&opening.auth, signers) {
            return Err(f);
        }
        match opening.result {
            Err(f) => Err(f),
            Ok((e, action)) => {
                proof {
                    lemma_initialize_wf(args.0, args.1, args.2, args.3, args.4, args.5, created_at);
                }
                self.stored = Some(e);
                Ok(action)
            },
        }
    }

    /// `deposit(monto)` called with the given signatures.
    pub fn deposit(&mut self, signers: &Signers, monto: i128) -> (r: Result<Action, Failure>)
        ensures
            (final(self)@, result_view(r)) == call_outcome(
                old(self)@,
                deposit_plan(old(self)@, monto),
                *signers,
            ),
            storage_wf(final(self)@),
    {
        proof {
            use_type_invariant(&*self);
            if let Some(e) = self@ {
                lemma_operations_keep_wf(e, monto, 0, 0, 0);
            }
        }
        let plan = deposit(&self.stored, monto);
        self.run(plan, signers)
    }

    /// `approve_milestone(hito_id)` called with the given signatures.
    pub fn approve_milestone(&mut self, signers: &Signers, hito_id: u32) -> (r: Result<Action, Failure>)
        ensures
            (final(self)@, result_view(r)) == call_outcome(
                old(self)@,
                approve_plan(old(self)@, hito_id),
                *signers,
            ),
            storage_wf(final(self)@),
    {
        proof {
            use_type_invariant(&*self);
            if let Some(e) = self@ {
                lemma_operations_keep_wf(e, 0, hito_id, 0, 0);
            }
        }
        let plan = approve_milestone(&self.stored, hito_id);
        self.run(plan, signers)
    }

    /// `release(hito_id)` called with the given signatures.
    pub fn release(&mut self, signers: &Signers, hito_id: u32) -> (r: Result<Action, Failure>)
        ensures
            (final(self)@, result_view(r)) == call_outcome(
                old(self)@,
                release_plan(old(self)@, hito_id),
                *signers,
            ),
            storage_wf(final(self)@),
    {
        proof {
            use_type_invariant(&*self);
            if let Some(e) = self@ {
                lemma_operations_keep_wf(e, 0, hito_id, 0, 0);
            }
        }
        let plan = release(&self.stored, hito_id);
        self.run(plan, signers)
    }

    /// `dispute()` called with the given signatures.
    pub fn dispute(&mut self, signers: &Signers) -> (r: Result<Action, Failure>)
        ensures
            (final(self)@, result_view(r)) == call_outcome(
                old(self)@,
                dispute_plan(old(self)@),
                *signers,
            ),
            storage_wf(final(self)@),
    {
        proof {
            use_type_invariant(&*self);
            if let Some(e) = self@ {
                lemma_operations_keep_wf(e, 0, 0, 0, 0);
            }
        }
        let plan = dispute(&self.stored);
        self.run(plan, signers)
    }

    /// `resolve(monto_freelancer, monto_empresa)` called with the given signatures.
    pub fn resolve(
        &mut self,
        signers: &Signers,
        monto_freelancer: i128,
        monto_empresa: i128,
    ) -> (r: Result<Action, Failure>)
        ensures
            (final(self)@, result_view(r)) == call_outcome(
                old(self)@,
                resolve_plan(old(self)@, monto_freelancer, monto_empresa),
                *signers,
            ),
            storage_wf(final(self)@),
    {
        proof {
            use_type_invariant(&*self);
            if let Some(e) = self@ {
                lemma_operations_keep_wf(e, 0, 0, monto_freelancer, monto_empresa);
            }
        }
        let plan = resolve(&self.stored, monto_freelancer, monto_empresa);
        self.run(plan, signers)
    }

    /// `cancel()` called with the given signatures.
    pub fn cancel(&mut self, signers: &Signers) -> (r: Result<Action, Failure>)
        ensures
            (final(self)@, result_view(r)) == call_outcome(
                old(self)@,
                cancel_plan(old(self)@),
                *signers,
            ),
            storage_wf(final(self)@),
    {
        proof {
            use_type_invariant(&*self);
            if let Some(e) = self@ {
                lemma_operations_keep_wf(e, 0, 0, 0, 0);
            }
        }
        let plan = cancel(&self.stored);
        self.run(plan, signers)
    }

    /// `query_escrow()`: the stored escrow, or `NoInicializado` before `initialize`.
    pub fn query_escrow(&self) -> (r: Result<&Escrow<A, D>, Error>)
        ensures
            match r {
                Ok(e) => self@ == Some(e@),
                Err(err) => self@ is None && err == Error::NoInicializado,
            },
    {
        query_escrow(&self.stored)
    }
}

} // verus!
