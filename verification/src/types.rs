use vstd::prelude::*;

verus! {

/// Life-cycle stage of an escrow.
#[derive(Clone, Copy, Debug, PartialEq, Eq, Structural)]
pub enum Estado {
    /// Created, waiting for the company's deposit.
    Activo,
    /// Funds received; milestones can be approved and paid.
    Depositado,
    /// Everything settled.
    Completado,
    /// A dispute is open and waits for the arbiter.
    Disputado,
    /// Called off by the company.
    Cancelado,
}

/// One deliverable of the project and the amount paid for it.
/// `D` is the type of the human-readable description, which the escrow only carries.
#[derive(Clone, Copy, Debug)]
pub struct Hito<D> {
    pub id: u32,
    pub descripcion: D,
    pub monto: i128,
    pub completado: bool,
    pub aprobado: bool,
}

/// The stored escrow agreement. `A` is the type of an account address
/// (the company, the freelancer, the arbiter and the token contract), which the
/// escrow only carries and hands back in its effects; `D` is the type of a
/// milestone description.
#[derive(Clone, Debug)]
pub struct Escrow<A, D> {
    pub empresa: A,
    pub freelancer: A,
    pub arbitro: A,
    pub token: A,
    pub monto_total: i128,
    pub monto_pagado: i128,
    pub hitos: Vec<Hito<D>>,
    /// Position by position, whether the milestone has been paid.
    pub hitos_pagados: Vec<bool>,
    pub estado: Estado,
    pub created_at: u64,
}

/// Mathematical model of an [`Escrow`]: the same fields, milestones as a sequence.
pub struct EscrowView<A, D> {
    pub empresa: A,
    pub freelancer: A,
    pub arbitro: A,
    pub token: A,
    pub monto_total: i128,
    pub monto_pagado: i128,
    pub hitos: Seq<Hito<D>>,
    pub hitos_pagados: Seq<bool>,
    pub estado: Estado,
    pub created_at: u64,
}

impl<A, D> View for Escrow<A, D> {
    type V = EscrowView<A, D>;

    open spec fn view(&self) -> EscrowView<A, D> {
        EscrowView {
            empresa: self.empresa,
            freelancer: self.freelancer,
            arbitro: self.arbitro,
            token: self.token,
            monto_total: self.monto_total,
            monto_pagado: self.monto_pagado,
            hitos: self.hitos@,
            hitos_pagados: self.hitos_pagados@,
            estado: self.estado,
            created_at: self.created_at,
        }
    }
}

/// The model of what the contract storage holds: nothing before `initialize`, then one escrow.
pub open spec fn stored_view<A, D>(stored: Option<Escrow<A, D>>) -> Option<EscrowView<A, D>> {
    match stored {
        Some(e) => Some(e@),
        None => None,
    }
}

/// A role named in the escrow.
#[derive(Clone, Copy, Debug, PartialEq, Eq, Structural)]
pub enum Party {
    Empresa,
    Freelancer,
    Arbitro,
}

/// One end of a token transfer: the escrow contract itself, or one of the parties.
#[derive(Clone, Copy, Debug, PartialEq, Eq, Structural)]
pub enum Account {
    Contract,
    Party(Party),
}

/// A movement of `amount` units of the escrow's token.
#[derive(Clone, Copy, Debug, PartialEq, Eq, Structural)]
pub struct Transfer {
    pub from: Account,
    pub to: Account,
    pub amount: i128,
}

/// The event that a successful operation publishes.
#[derive(Clone, Copy, Debug, PartialEq, Eq, Structural)]
pub enum Event {
    /// Carries the company, freelancer and arbiter of the new escrow.
    Initialized,
    Deposit(i128),
    MilestoneApproved(u32),
    PaymentReleased(u32, i128),
    /// Carries the address of the given party.
    DisputeOpened(Party),
    DisputeResolved(i128, i128),
    Cancelled,
}

/// Which signatures an operation demands before it acts.
#[derive(Clone, Copy, Debug, PartialEq, Eq, Structural)]
pub enum Auth {
    /// The operation was refused before asking anybody.
    Nobody,
    /// The party must authorize the call; without it the whole call aborts.
    Requires(Party),
    /// At least one of the two parties must authorize; without either the call
    /// returns `Error::NoAutorizado`.
    EitherOf(Party, Party),
}

/// Which parties authorized a call.
#[derive(Clone, Copy, Debug, PartialEq, Eq, Structural)]
pub struct Signers {
    pub empresa: bool,
    pub freelancer: bool,
    pub arbitro: bool,
}

/// Why a call did not take effect.
#[derive(Clone, Copy, Debug, PartialEq, Eq, Structural)]
pub enum Failure {
    /// The operation returned this error; nothing changed.
    Error(crate::errors::Error),
    /// The party did not authorize the call, which aborts it; nothing changed.
    Unauthorized(Party),
    /// An amount left the range of `i128`, which aborts the call; nothing changed.
    Overflow,
}

/// The new values that a successful operation writes into the stored escrow.
#[derive(Clone, Copy, Debug, PartialEq, Eq, Structural)]
pub struct Update {
    pub estado: Estado,
    pub monto_pagado: i128,
    /// The milestone (by position) that becomes completed and approved, if any.
    pub aprobar: Option<usize>,
    /// The milestone (by position) that becomes paid, if any.
    pub pagar: Option<usize>,
}

/// What a successful operation does: the storage update, the token transfers
/// (in order), whether the storage lifetime is extended, and the event published.
#[derive(Clone, Debug)]
pub struct Action {
    pub update: Update,
    pub transfers: Vec<Transfer>,
    pub extend_ttl: bool,
    pub event: Event,
}

pub struct ActionView {
    pub update: Update,
    pub transfers: Seq<Transfer>,
    pub extend_ttl: bool,
    pub event: Event,
}

impl View for Action {
    type V = ActionView;

    open spec fn view(&self) -> ActionView {
        ActionView {
            update: self.update,
            transfers: self.transfers@,
            extend_ttl: self.extend_ttl,
            event: self.event,
        }
    }
}

/// The decision an operation takes on the stored escrow: the authorization it
/// demands first, then what it does once that authorization is given.
#[derive(Debug)]
pub struct Plan {
    pub auth: Auth,
    pub result: Result<Action, Failure>,
}

pub struct PlanView {
    pub auth: Auth,
    pub result: Result<ActionView, Failure>,
}

pub open spec fn result_view(r: Result<Action, Failure>) -> Result<ActionView, Failure> {
    match r {
        Ok(a) => Ok(a@),
        Err(f) => Err(f),
    }
}

impl View for Plan {
    type V = PlanView;

    open spec fn view(&self) -> PlanView {
        PlanView { auth: self.auth, result: result_view(self.result) }
    }
}

/// The decision of `initialize`: the authorization it demands (that of the
/// company named in the call), then either why it fails or the new escrow and
/// what the call does besides storing it.
#[derive(Debug)]
pub struct Opening<A, D> {
    pub auth: Auth,
    pub result: Result<(Escrow<A, D>, Action), Failure>,
}

pub struct OpeningView<A, D> {
    pub auth: Auth,
    pub result: Result<(EscrowView<A, D>, ActionView), Failure>,
}

impl<A, D> View for Opening<A, D> {
    type V = OpeningView<A, D>;

    open spec fn view(&self) -> OpeningView<A, D> {
        OpeningView {
            auth: self.auth,
            result: match self.result {
                Ok((e, a)) => Ok((e@, a@)),
                Err(f) => Err(f),
            },
        }
    }
}

} // verus!
