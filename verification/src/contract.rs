//! The escrow operations as decisions on the stored escrow.
//!
//! Each operation looks at what the storage holds and returns a [`Plan`]: the
//! authorization it demands, then either the error it returns, an abort, or the
//! [`Action`] it takes (storage update, token transfers, lifetime extension and
//! event). The caller performs the authorization and the action.
use vstd::prelude::*;

use crate::errors::Error;
use crate::types::{
    Account, Action, ActionView, Auth, Escrow, EscrowView, Estado, Event, Failure, Hito, Party,
    Opening, OpeningView, Plan, PlanView, Signers, Transfer, Update, stored_view,
};

verus! {

// ---------------------------------------------------------------------------
// Model
// ---------------------------------------------------------------------------

pub open spec fn in_i128(x: int) -> bool {
    i128::MIN <= x <= i128::MAX
}

/// The sum of the milestones' amounts.
pub open spec fn total_montos<D>(hitos: Seq<Hito<D>>) -> int
    decreases hitos.len(),
{
    if hitos.len() == 0 {
        0
    } else {
        total_montos(hitos.drop_last()) + hitos.last().monto
    }
}

/// Adding the amounts up one milestone after the other never leaves `i128`.
pub open spec fn sums_fit<D>(hitos: Seq<Hito<D>>) -> bool {
    forall|k: int| 0 <= k <= hitos.len() ==> #[trigger] in_i128(total_montos(hitos.take(k)))
}

/// `i` is the position of the first milestone whose id is `id`.
pub open spec fn is_first_hito<D>(hitos: Seq<Hito<D>>, id: u32, i: int) -> bool {
    &&& 0 <= i < hitos.len()
    &&& hitos[i].id == id
    &&& forall|j: int| 0 <= j < i ==> #[trigger] hitos[j].id != id
}

/// The position of the first milestone whose id is `id`, if there is one.
pub open spec fn first_hito<D>(hitos: Seq<Hito<D>>, id: u32) -> Option<int> {
    if exists|i: int| is_first_hito(hitos, id, i) {
        Some(choose|i: int| is_first_hito(hitos, id, i))
    } else {
        None
    }
}

/// Some milestone is approved.
pub open spec fn any_aprobado<D>(hitos: Seq<Hito<D>>) -> bool {
    exists|i: int| 0 <= i < hitos.len() && #[trigger] hitos[i].aprobado
}

pub open spec fn refused(e: Error) -> PlanView {
    PlanView { auth: Auth::Nobody, result: Err(Failure::Error(e)) }
}

pub open spec fn refused_after(p: Party, e: Error) -> PlanView {
    PlanView { auth: Auth::Requires(p), result: Err(Failure::Error(e)) }
}

pub open spec fn granted(
    auth: Auth,
    update: Update,
    transfers: Seq<Transfer>,
    extend_ttl: bool,
    event: Event,
) -> PlanView {
    PlanView { auth, result: Ok(ActionView { update, transfers, extend_ttl, event }) }
}

/// An update that sets the stage and keeps everything else.
pub open spec fn to_estado<A, D>(e: EscrowView<A, D>, estado: Estado) -> Update {
    Update { estado, monto_pagado: e.monto_pagado, aprobar: None, pagar: None }
}

pub open spec fn pay(from: Account, to: Account, amount: i128) -> Transfer {
    Transfer { from, to, amount }
}

/// The escrow after a successful operation wrote `u` into it.
pub open spec fn apply_spec<A, D>(e: EscrowView<A, D>, u: Update) -> EscrowView<A, D> {
    EscrowView {
        estado: u.estado,
        monto_pagado: u.monto_pagado,
        hitos: match u.aprobar {
            Some(i) => if i < e.hitos.len() {
                e.hitos.update(
                    i as int,
                    Hito { completado: true, aprobado: true, ..e.hitos[i as int] },
                )
            } else {
                e.hitos
            },
            None => e.hitos,
        },
        hitos_pagados: match u.pagar {
            Some(i) => if i < e.hitos_pagados.len() {
                e.hitos_pagados.update(i as int, true)
            } else {
                e.hitos_pagados
            },
            None => e.hitos_pagados,
        },
        ..e
    }
}

/// `deposit(monto)`: the company pays the full amount into the escrow.
pub open spec fn deposit_plan<A, D>(stored: Option<EscrowView<A, D>>, monto: i128) -> PlanView {
    match stored {
        None => refused(Error::NoInicializado),
        Some(e) => if e.estado != Estado::Activo {
            refused(Error::EstadoInvalido)
        } else if monto != e.monto_total {
            refused_after(Party::Empresa, Error::MontoIncorrecto)
        } else {
            granted(
                Auth::Requires(Party::Empresa),
                to_estado(e, Estado::Depositado),
                seq![pay(Account::Party(Party::Empresa), Account::Contract, monto)],
                true,
                Event::Deposit(monto),
            )
        },
    }
}


/// `approve_milestone(id)`: the company approves the first milestone with that id.
pub open spec fn approve_plan<A, D>(stored: Option<EscrowView<A, D>>, hito_id: u32) -> PlanView {
    match stored {
        None => refused(Error::NoInicializado),
        Some(e) => if e.estado != Estado::Depositado {
            refused(Error::NoDepositado)
        } else {
            match first_hito(e.hitos, hito_id) {
                None => refused_after(Party::Empresa, Error::HitoNoEncontrado),
                Some(i) => if e.hitos[i].aprobado {
                    refused_after(Party::Empresa, Error::HitoYaAprobado)
                } else {
                    granted(
                        Auth::Requires(Party::Empresa),
                        Update {
                            estado: e.estado,
                            monto_pagado: e.monto_pagado,
                            aprobar: Some(i as usize), pagar: None,
                        },
                        Seq::empty(),
                        true,
                        Event::MilestoneApproved(hito_id),
                    )
                },
            }
        },
    }
}

/// The milestone at position `i` has been paid.
pub open spec fn hito_pagado<A, D>(e: EscrowView<A, D>, i: int) -> bool {
    0 <= i < e.hitos_pagados.len() && e.hitos_pagados[i]
}

/// `release(id)`: the company pays the freelancer the amount of the first
/// milestone with that id, which must be approved and not paid yet; the
/// milestone becomes paid, and once the paid amount equals the total the escrow
/// is `Completado`.
pub open spec fn release_plan<A, D>(stored: Option<EscrowView<A, D>>, hito_id: u32) -> PlanView {
    match stored {
        None => refused(Error::NoInicializado),
        Some(e) => if e.estado != Estado::Depositado {
            refused(Error::NoDepositado)
        } else {
            match first_hito(e.hitos, hito_id) {
                None => refused_after(Party::Empresa, Error::HitoNoEncontrado),
                Some(i) => if !e.hitos[i].aprobado {
                    refused_after(Party::Empresa, Error::HitoNoAprobado)
                } else if hito_pagado(e, i) {
                    refused_after(Party::Empresa, Error::HitoYaPagado)
                } else {
                    let monto = e.hitos[i].monto;
                    let pagado = e.monto_pagado + monto;
                    if !in_i128(pagado) {
                        PlanView { auth: Auth::Requires(Party::Empresa), result: Err(Failure::Overflow) }
                    } else {
                        granted(
                            Auth::Requires(Party::Empresa),
                            Update {
                                estado: if pagado == e.monto_total {
                                    Estado::Completado
                                } else {
                                    Estado::Depositado
                                },
                                monto_pagado: pagado as i128,
                                aprobar: None,
                                pagar: Some(i as usize),
                            },
                            seq![pay(Account::Contract, Account::Party(Party::Freelancer), monto)],
                            true,
                            Event::PaymentReleased(hito_id, monto),
                        )
                    }
                },
            }
        },
    }
}

/// `dispute()`: in stage `Depositado` the company or the freelancer opens a dispute.
pub open spec fn dispute_plan<A, D>(stored: Option<EscrowView<A, D>>) -> PlanView {
    match stored {
        None => refused(Error::NoInicializado),
        Some(e) => if e.estado != Estado::Depositado {
            refused(Error::NoDepositado)
        } else {
            granted(
                Auth::EitherOf(Party::Empresa, Party::Freelancer),
                to_estado(e, Estado::Disputado),
                Seq::empty(),
                false,
                Event::DisputeOpened(Party::Freelancer),
            )
        },
    }
}

/// The payouts of a resolution: each positive amount goes to its party,
/// the freelancer first.
pub open spec fn resolve_transfers(monto_freelancer: i128, monto_empresa: i128) -> Seq<Transfer> {
    (if monto_freelancer > 0 {
        seq![pay(Account::Contract, Account::Party(Party::Freelancer), monto_freelancer)]
    } else {
        Seq::empty()
    }) + (if monto_empresa > 0 {
        seq![pay(Account::Contract, Account::Party(Party::Empresa), monto_empresa)]
    } else {
        Seq::empty()
    })
}

/// What a share pays out: the amount when positive, nothing otherwise.
pub open spec fn payout(monto: i128) -> int {
    if monto > 0 {
        monto as int
    } else {
        0
    }
}

/// `resolve(mf, me)`: the arbiter closes a dispute, paying out (of the positive
/// shares) at most the funds that were not paid out yet.
pub open spec fn resolve_plan<A, D>(
    stored: Option<EscrowView<A, D>>,
    monto_freelancer: i128,
    monto_empresa: i128,
) -> PlanView {
    match stored {
        None => refused(Error::NoInicializado),
        Some(e) => if e.estado != Estado::Disputado {
            refused(Error::EstadoInvalido)
        } else if !in_i128(e.monto_total - e.monto_pagado) {
            PlanView { auth: Auth::Requires(Party::Arbitro), result: Err(Failure::Overflow) }
        } else if payout(monto_freelancer) + payout(monto_empresa) > e.monto_total
            - e.monto_pagado {
            refused_after(Party::Arbitro, Error::FondosInsuficientes)
        } else {
            granted(
                Auth::Requires(Party::Arbitro),
                to_estado(e, Estado::Completado),
                resolve_transfers(monto_freelancer, monto_empresa),
                false,
                Event::DisputeResolved(monto_freelancer, monto_empresa),
            )
        },
    }
}

/// `cancel()`: the company calls the escrow off, before the deposit or after
/// it as long as no milestone is approved; a deposit is refunded in full.
pub open spec fn cancel_plan<A, D>(stored: Option<EscrowView<A, D>>) -> PlanView {
    match stored {
        None => refused(Error::NoInicializado),
        Some(e) => if e.estado != Estado::Activo && e.estado != Estado::Depositado {
            refused(Error::EstadoInvalido)
        } else if e.estado == Estado::Depositado && any_aprobado(e.hitos) {
            refused_after(Party::Empresa, Error::NoPuedeCancelar)
        } else {
            granted(
                Auth::Requires(Party::Empresa),
                to_estado(e, Estado::Cancelado),
                if e.estado == Estado::Depositado {
                    seq![pay(Account::Contract, Account::Party(Party::Empresa), e.monto_total)]
                } else {
                    Seq::empty()
                },
                false,
                Event::Cancelled,
            )
        },
    }
}

/// `initialize(...)`: creates the escrow, whose total is the sum of the
/// milestones' amounts. The company named in the call authorizes it first.
pub open spec fn initialize_result<A, D>(
    stored: Option<EscrowView<A, D>>,
    empresa: A,
    freelancer: A,
    arbitro: A,
    token: A,
    hitos: Seq<Hito<D>>,
    created_at: u64,
) -> Result<EscrowView<A, D>, Failure> {
    if stored is Some {
        Err(Failure::Error(Error::YaInicializado))
    } else if hitos.len() == 0 {
        Err(Failure::Error(Error::HitosVacios))
    } else if !sums_fit(hitos) {
        Err(Failure::Overflow)
    } else {
        Ok(
            EscrowView {
                empresa,
                freelancer,
                arbitro,
                token,
                monto_total: total_montos(hitos) as i128,
                monto_pagado: 0,
                hitos,
                hitos_pagados: Seq::new(hitos.len(), |i: int| false),
                estado: Estado::Activo,
                created_at,
            },
        )
    }
}

/// What a successful `initialize` does besides storing the new escrow: no
/// transfer, no lifetime extension, and the `Initialized` event (which carries
/// the company, the freelancer and the arbiter). Its update is the new
/// escrow's own stage and paid amount.
pub open spec fn opening_action() -> ActionView {
    ActionView {
        update: Update { estado: Estado::Activo, monto_pagado: 0, aprobar: None, pagar: None },
        transfers: Seq::empty(),
        extend_ttl: false,
        event: Event::Initialized,
    }
}

/// `initialize(...)`: the company named in the call must authorize it; then the
/// escrow is created as `initialize_result` says.
pub open spec fn initialize_plan<A, D>(
    stored: Option<EscrowView<A, D>>,
    empresa: A,
    freelancer: A,
    arbitro: A,
    token: A,
    hitos: Seq<Hito<D>>,
    created_at: u64,
) -> OpeningView<A, D> {
    OpeningView {
        auth: Auth::Requires(Party::Empresa),
        result: match initialize_result(
            stored,
            empresa,
            freelancer,
            arbitro,
            token,
            hitos,
            created_at,
        ) {
            Ok(e) => Ok((e, opening_action())),
            Err(f) => Err(f),
        },
    }
}

pub open spec fn escrow_result_view<A, D>(r: Result<Escrow<A, D>, Failure>) -> Result<
    EscrowView<A, D>,
    Failure,
> {
    match r {
        Ok(e) => Ok(e@),
        Err(f) => Err(f),
    }
}

/// The party signed the call.
pub open spec fn signed(s: Signers, p: Party) -> bool {
    match p {
        Party::Empresa => s.empresa,
        Party::Freelancer => s.freelancer,
        Party::Arbitro => s.arbitro,
    }
}

/// Whether the demanded authorization is given by the signers, and what the
/// call comes to when it is not.
pub open spec fn auth_outcome(auth: Auth, s: Signers) -> Result<(), Failure> {
    match auth {
        Auth::Nobody => Ok(()),
        Auth::Requires(p) => if signed(s, p) {
            Ok(())
        } else {
            Err(Failure::Unauthorized(p))
        },
        Auth::EitherOf(p, q) => if signed(s, p) || signed(s, q) {
            Ok(())
        } else {
            Err(Failure::Error(Error::NoAutorizado))
        },
    }
}

// ---------------------------------------------------------------------------
// Helpers
// ---------------------------------------------------------------------------

/// The first milestone with an id is unique.
pub proof fn lemma_first_hito_is<D>(hitos: Seq<Hito<D>>, id: u32, i: int)
    requires
        is_first_hito(hitos, id, i),
    ensures
        first_hito(hitos, id) == Some(i),
{
    let k = choose|k: int| is_first_hito(hitos, id, k);
    assert(is_first_hito(hitos, id, k));
    if k < i {
        assert(hitos[k].id != id);
    } else if i < k {
        assert(hitos[i].id != id);
    }
}

/// The position of the first milestone whose id is `id`.
fn find_hito<D>(hitos: &Vec<Hito<D>>, id: u32) -> (r: Option<usize>)
    ensures
        match r {
            Some(i) => first_hito(hitos@, id) == Some(i as int) && i < hitos@.len(),
            None => first_hito(hitos@, id) is None,
        },
{
    let mut i: usize = 0;
    while i < hitos.len()
        invariant
            i <= hitos@.len(),
            forall|j: int| 0 <= j < i ==> #[trigger] hitos@[j].id != id,
        decreases hitos@.len() - i,
    {
        if hitos[i].id == id {
            proof {
                lemma_first_hito_is(hitos@, id, i as int);
            }
            return Some(i);
        }
        i += 1;
    }
    assert(!exists|k: int| is_first_hito(hitos@, id, k));
    None
}

fn refuse(e: Error) -> (plan: Plan)
    ensures
        plan@ == refused(e),
{
    Plan { auth: Auth::Nobody, result: Err(Failure::Error(e)) }
}

fn refuse_after(p: Party, e: Error) -> (plan: Plan)
    ensures
        plan@ == refused_after(p, e),
{
    Plan { auth: Auth::Requires(p), result: Err(Failure::Error(e)) }
}

fn grant(auth: Auth, update: Update, transfers: Vec<Transfer>, extend_ttl: bool, event: Event) -> (plan: Plan)
    ensures
        plan@ == granted(auth, update, transfers@, extend_ttl, event),
{
    Plan { auth, result: Ok(Action { update, transfers, extend_ttl, event }) }
}

fn single_transfer(from: Account, to: Account, amount: i128) -> (v: Vec<Transfer>)
    ensures
        v@ == seq![pay(from, to, amount)],
{
    let mut v: Vec<Transfer> = Vec::new();
    v.push(Transfer { from, to, amount });
    assert(v@ =~= seq![pay(from, to, amount)]);
    v
}

// ---------------------------------------------------------------------------
// Operations
// ---------------------------------------------------------------------------

/// Deposit: in stage `Activo` the company must pay exactly the escrow's total,
/// which moves it to `Depositado`.
pub fn deposit<A, D>(stored: &Option<Escrow<A, D>>, monto: i128) -> (plan: Plan)
    ensures
        plan@ == deposit_plan(stored_view(*stored), monto),
{
    match stored {
        None => refuse(Error::NoInicializado),
        Some(e) => {
            if e.estado != Estado::Activo {
                return refuse(Error::EstadoInvalido);
            }
            if monto != e.monto_total {
                return refuse_after(Party::Empresa, Error::MontoIncorrecto);
            }
            let update = Update { estado: Estado::Depositado, monto_pagado: e.monto_pagado, aprobar: None, pagar: None };
            let transfers = single_transfer(Account::Party(Party::Empresa), Account::Contract, monto);
            grant(Auth::Requires(Party::Empresa), update, transfers, true, Event::Deposit(monto))
        },
    }
}

/// Approve milestone: in stage `Depositado` the company marks the first
/// milestone with id `hito_id` completed and approved.
pub fn approve_milestone<A, D>(stored: &Option<Escrow<A, D>>, hito_id: u32) -> (plan: Plan)
    ensures
        plan@ == approve_plan(stored_view(*stored), hito_id),
{
    match stored {
        None => refuse(Error::NoInicializado),
        Some(e) => {
            if e.estado != Estado::Depositado {
                return refuse(Error::NoDepositado);
            }
            match find_hito(&e.hitos, hito_id) {
                None => refuse_after(Party::Empresa, Error::HitoNoEncontrado),
                Some(i) => {
                    if e.hitos[i].aprobado {
                        return refuse_after(Party::Empresa, Error::HitoYaAprobado);
                    }
                    let update = Update { estado: e.estado, monto_pagado: e.monto_pagado, aprobar: Some(i), pagar: None };
                    let transfers: Vec<Transfer> = Vec::new();
                    grant(
                        Auth::Requires(Party::Empresa),
                        update,
                        transfers,
                        true,
                        Event::MilestoneApproved(hito_id),
                    )
                },
            }
        },
    }
}

/// Release: in stage `Depositado` the company pays the freelancer the amount of
/// the first milestone with id `hito_id`, which must be approved.
pub fn release<A, D>(stored: &Option<Escrow<A, D>>, hito_id: u32) -> (plan: Plan)
    ensures
        plan@ == release_plan(stored_view(*stored), hito_id),
{
    match stored {
        None => refuse(Error::NoInicializado),
        Some(e) => {
            if e.estado != Estado::Depositado {
                return refuse(Error::NoDepositado);
            }
            match find_hito(&e.hitos, hito_id) {
                None => refuse_after(Party::Empresa, Error::HitoNoEncontrado),
                Some(i) => {
                    if !e.hitos[i].aprobado {
                        return refuse_after(Party::Empresa, Error::HitoNoAprobado);
                    }
                    if i < e.hitos_pagados.len() && e.hitos_pagados[i] {
                        return refuse_after(Party::Empresa, Error::HitoYaPagado);
                    }
                    let monto = e.hitos[i].monto;
                    match e.monto_pagado.checked_add(monto) {
                        None => Plan { auth: Auth::Requires(Party::Empresa), result: Err(Failure::Overflow) },
                        Some(pagado) => {
                            let estado = if pagado == e.monto_total {
                                Estado::Completado
                            } else {
                                Estado::Depositado
                            };
                            let update = Update { estado, monto_pagado: pagado, aprobar: None, pagar: Some(i) };
                            let transfers = single_transfer(
                                Account::Contract,
                                Account::Party(Party::Freelancer),
                                monto,
                            );
                            grant(
                                Auth::Requires(Party::Empresa),
                                update,
                                transfers,
                                true,
                                Event::PaymentReleased(hito_id, monto),
                            )
                        },
                    }
                },
            }
        },
    }
}

/// Dispute: in stage `Depositado` the company or the freelancer moves the
/// escrow to `Disputado`.
pub fn dispute<A, D>(stored: &Option<Escrow<A, D>>) -> (plan: Plan)
    ensures
        plan@ == dispute_plan(stored_view(*stored)),
{
    match stored {
        None => refuse(Error::NoInicializado),
        Some(e) => {
            if e.estado != Estado::Depositado {
                return refuse(Error::NoDepositado);
            }
            let update = Update { estado: Estado::Disputado, monto_pagado: e.monto_pagado, aprobar: None, pagar: None };
            let transfers: Vec<Transfer> = Vec::new();
            grant(
                Auth::EitherOf(Party::Empresa, Party::Freelancer),
                update,
                transfers,
                false,
                Event::DisputeOpened(Party::Freelancer),
            )
        },
    }
}

/// Resolve: in stage `Disputado` the arbiter pays `monto_freelancer` to the
/// freelancer and `monto_empresa` to the company (each only when positive),
/// provided what it pays out does not exceed the funds not yet paid out.
pub fn resolve<A, D>(stored: &Option<Escrow<A, D>>, monto_freelancer: i128, monto_empresa: i128) -> (plan: Plan)
    ensures
        plan@ == resolve_plan(stored_view(*stored), monto_freelancer, monto_empresa),
{
    match stored {
        None => refuse(Error::NoInicializado),
        Some(e) => {
            if e.estado != Estado::Disputado {
                return refuse(Error::EstadoInvalido);
            }
            let disponibles = match e.monto_total.checked_sub(e.monto_pagado) {
                None => {
                    return Plan { auth: Auth::Requires(Party::Arbitro), result: Err(Failure::Overflow) };
                },
                Some(d) => d,
            };
            let a: i128 = if monto_freelancer > 0 { monto_freelancer } else { 0 };
            let b: i128 = if monto_empresa > 0 { monto_empresa } else { 0 };
            let cabe = match a.checked_add(b) {
                None => false,
                Some(suma) => suma <= disponibles,
            };
            if !cabe {
                return refuse_after(Party::Arbitro, Error::FondosInsuficientes);
            }
            let mut transfers: Vec<Transfer> = Vec::new();
            if monto_freelancer > 0 {
                transfers.push(
                    Transfer {
                        from: Account::Contract,
                        to: Account::Party(Party::Freelancer),
                        amount: monto_freelancer,
                    },
                );
            }
            if monto_empresa > 0 {
                transfers.push(
                    Transfer {
                        from: Account::Contract,
                        to: Account::Party(Party::Empresa),
                        amount: monto_empresa,
                    },
                );
            }
            assert(transfers@ =~= resolve_transfers(monto_freelancer, monto_empresa));
            let update = Update { estado: Estado::Completado, monto_pagado: e.monto_pagado, aprobar: None, pagar: None };
            grant(
                Auth::Requires(Party::Arbitro),
                update,
                transfers,
                false,
                Event::DisputeResolved(monto_freelancer, monto_empresa),
            )
        },
    }
}

/// Whether some milestone is approved.
fn has_aprobado<D>(hitos: &Vec<Hito<D>>) -> (r: bool)
    ensures
        r == any_aprobado(hitos@),
{
    let mut i: usize = 0;
    while i < hitos.len()
        invariant
            i <= hitos@.len(),
            forall|j: int| 0 <= j < i ==> !(#[trigger] hitos@[j].aprobado),
        decreases hitos@.len() - i,
    {
        if hitos[i].aprobado {
            return true;
        }
        i += 1;
    }
    false
}

/// Cancel: in stage `Activo`, or in `Depositado` while no milestone is
/// approved, the company cancels the escrow; a deposit is refunded in full.
pub fn cancel<A, D>(stored: &Option<Escrow<A, D>>) -> (plan: Plan)
    ensures
        plan@ == cancel_plan(stored_view(*stored)),
{
    match stored {
        None => refuse(Error::NoInicializado),
        Some(e) => {
            if e.estado != Estado::Activo && e.estado != Estado::Depositado {
                return refuse(Error::EstadoInvalido);
            }
            let depositado = e.estado == Estado::Depositado;
            let transfers = if depositado {
                if has_aprobado(&e.hitos) {
                    return refuse_after(Party::Empresa, Error::NoPuedeCancelar);
                }
                single_transfer(Account::Contract, Account::Party(Party::Empresa), e.monto_total)
            } else {
                let v: Vec<Transfer> = Vec::new();
                assert(v@ =~= Seq::<Transfer>::empty());
                v
            };
            let update = Update { estado: Estado::Cancelado, monto_pagado: e.monto_pagado, aprobar: None, pagar: None };
            grant(Auth::Requires(Party::Empresa), update, transfers, false, Event::Cancelled)
        },
    }
}

/// Creates the escrow in stage `Activo`, nothing paid, its total the sum of
/// the milestones' amounts.
fn create_escrow<A, D>(
    stored: &Option<Escrow<A, D>>,
    empresa: A,
    freelancer: A,
    arbitro: A,
    token: A,
    hitos: Vec<Hito<D>>,
    created_at: u64,
) -> (r: Result<Escrow<A, D>, Failure>)
    ensures
        escrow_result_view(r) == initialize_result(
            stored_view(*stored),
            empresa,
            freelancer,
            arbitro,
            token,
            hitos@,
            created_at,
        ),
{
    if stored.is_some() {
        return Err(Failure::Error(Error::YaInicializado));
    }
    if hitos.len() == 0 {
        return Err(Failure::Error(Error::HitosVacios));
    }
    let mut total: i128 = 0;
    let mut i: usize = 0;
    while i < hitos.len()
        invariant
            stored is None,
            hitos@.len() > 0,
            i <= hitos@.len(),
            total == total_montos(hitos@.take(i as int)),
            forall|k: int| 0 <= k <= i ==> #[trigger] in_i128(total_montos(hitos@.take(k))),
        decreases hitos@.len() - i,
    {
        assert(hitos@.take(i + 1).drop_last() =~= hitos@.take(i as int));
        assert(total_montos(hitos@.take(i + 1)) == total + hitos@[i as int].monto);
        match total.checked_add(hitos[i].monto) {
            None => {
                assert(!sums_fit(hitos@)) by {
                    let k = i + 1;
                    assert(0 <= k <= hitos@.len());
                    assert(!in_i128(total_montos(hitos@.take(k))));
                }
                return Err(Failure::Overflow);
            },
            Some(t) => {
                total = t;
            },
        }
        i += 1;
    }
    assert(hitos@.take(hitos@.len() as int) =~= hitos@);
    let mut hitos_pagados: Vec<bool> = Vec::new();
    let mut j: usize = 0;
    while j < hitos.len()
        invariant
            j <= hitos@.len(),
            hitos_pagados@ =~= Seq::new(j as nat, |k: int| false),
        decreases hitos@.len() - j,
    {
        hitos_pagados.push(false);
        j += 1;
    }
    Ok(
        Escrow {
            empresa,
            freelancer,
            arbitro,
            token,
            monto_total: total,
            monto_pagado: 0,
            hitos,
            hitos_pagados,
            estado: Estado::Activo,
            created_at,
        },
    )
}

/// Initialize: the company named in the call must authorize it; then the
/// escrow is created in stage `Activo`, nothing paid, its total the sum of the
/// milestones' amounts, and the `Initialized` event is published.
pub fn initialize<A, D>(
    stored: &Option<Escrow<A, D>>,
    empresa: A,
    freelancer: A,
    arbitro: A,
    token: A,
    hitos: Vec<Hito<D>>,
    created_at: u64,
) -> (opening: Opening<A, D>)
    ensures
        opening@ == initialize_plan(
            stored_view(*stored),
            empresa,
            freelancer,
            arbitro,
            token,
            hitos@,
            created_at,
        ),
{
    let result = match create_escrow(stored, empresa, freelancer, arbitro, token, hitos, created_at) {
        Err(f) => Err(f),
        Ok(e) => {
            let transfers: Vec<Transfer> = Vec::new();
            let action = Action {
                update: Update { estado: Estado::Activo, monto_pagado: 0, aprobar: None, pagar: None },
                transfers,
                extend_ttl: false,
                event: Event::Initialized,
            };
            assert(action@.transfers =~= Seq::<Transfer>::empty());
            Ok((e, action))
        },
    };
    Opening { auth: Auth::Requires(Party::Empresa), result }
}

/// Query: the stored escrow, or `NoInicializado` before `initialize`.
pub fn query_escrow<A, D>(stored: &Option<Escrow<A, D>>) -> (r: Result<&Escrow<A, D>, Error>)
    ensures
        match r {
            Ok(e) => *stored == Some(*e),
            Err(err) => stored is None && err == Error::NoInicializado,
        },
{
    match stored {
        Some(e) => Ok(e),
        None => Err(Error::NoInicializado),
    }
}

/// Writes a successful operation's update into the escrow.
pub fn apply_update<A, D>(e: &mut Escrow<A, D>, u: &Update)
    ensures
        final(e)@ == apply_spec(old(e)@, *u),
{
    e.estado = u.estado;
    e.monto_pagado = u.monto_pagado;
    if let Some(i) = u.pagar {
        if i < e.hitos_pagados.len() {
            e.hitos_pagados.set(i, true);
        }
    }
    if let Some(i) = u.aprobar {
        if i < e.hitos.len() {
            let ghost before = e.hitos@;
            e.hitos[i].completado = true;
            e.hitos[i].aprobado = true;
            assert(e.hitos@ =~= before.update(
                i as int,
                Hito { completado: true, aprobado: true, ..before[i as int] },
            ));
        }
    }
}

/// Decides an authorization from the parties that signed the call.
pub fn check_auth(auth: &Auth, signers: &Signers) -> (r: Result<(), Failure>)
    ensures
        r == auth_outcome(*auth, *signers),
{
    let ok = |p: Party| -> (b: bool)
        ensures
            b == signed(*signers, p),
        {
            match p {
                Party::Empresa => signers.empresa,
                Party::Freelancer => signers.freelancer,
                Party::Arbitro => signers.arbitro,
            }
        };
    match auth {
        Auth::Nobody => Ok(()),
        Auth::Requires(p) => {
            if ok(*p) {
                Ok(())
            } else {
                Err(Failure::Unauthorized(*p))
            }
        },
        Auth::EitherOf(p, q) => {
            if ok(*p) || ok(*q) {
                Ok(())
            } else {
                Err(Failure::Error(Error::NoAutorizado))
            }
        },
    }
}

} // verus!
