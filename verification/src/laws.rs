//! What holds of the escrow across operations.
use vstd::prelude::*;

use crate::{call_outcome, opening_outcome};
use crate::contract::{
    any_aprobado, apply_spec, approve_plan, cancel_plan, deposit_plan, dispute_plan, first_hito,
    granted, in_i128, initialize_plan, initialize_result, is_first_hito, opening_action, lemma_first_hito_is, pay, refused,
    refused_after, release_plan, resolve_plan, sums_fit, to_estado, total_montos,
};
use crate::errors::Error;
use crate::types::{
    Account, Auth, EscrowView, Estado, Event, Failure, Hito, Party, PlanView, Signers, Transfer,
    Update,
};

verus! {

/// The sum of the amounts of the milestones among the first `n` that are marked paid.
pub open spec fn paid_sum<D>(hitos: Seq<Hito<D>>, pagados: Seq<bool>, n: int) -> int
    decreases n,
{
    if n <= 0 {
        0
    } else {
        paid_sum(hitos, pagados, n - 1) + if pagados[n - 1] {
            hitos[n - 1].monto as int
        } else {
            0
        }
    }
}

/// A stored escrow is well formed: it has milestones, its total is their sum and
/// fits `i128` at every step of the addition, every milestone has a paid mark,
/// only approved milestones are paid, and the amount paid is exactly the sum of
/// the paid milestones' amounts.
pub open spec fn escrow_wf<A, D>(e: EscrowView<A, D>) -> bool {
    &&& 0 < e.hitos.len() <= usize::MAX
    &&& sums_fit(e.hitos)
    &&& e.monto_total == total_montos(e.hitos)
    &&& e.hitos_pagados.len() == e.hitos.len()
    &&& forall|i: int|
        0 <= i < e.hitos.len() && #[trigger] e.hitos_pagados[i] ==> e.hitos[i].aprobado
    &&& e.monto_pagado == paid_sum(e.hitos, e.hitos_pagados, e.hitos.len() as int)
}

/// Milestones with the same amounts give the same paid sum.
proof fn lemma_paid_sum_pointwise<D>(h1: Seq<Hito<D>>, h2: Seq<Hito<D>>, p: Seq<bool>, n: int)
    requires
        n <= h1.len() == h2.len(),
        forall|i: int| 0 <= i < h1.len() ==> #[trigger] h1[i].monto == h2[i].monto,
    ensures
        paid_sum(h1, p, n) == paid_sum(h2, p, n),
    decreases n,
{
    if n > 0 {
        lemma_paid_sum_pointwise(h1, h2, p, n - 1);
    }
}

/// Marking one more milestone paid adds its amount to the paid sum.
proof fn lemma_paid_sum_mark<D>(h: Seq<Hito<D>>, p: Seq<bool>, i: int, n: int)
    requires
        0 <= i < p.len(),
        n <= p.len(),
        !p[i],
    ensures
        paid_sum(h, p.update(i, true), n) == paid_sum(h, p, n) + if i < n {
            h[i].monto as int
        } else {
            0
        },
    decreases n,
{
    if n > 0 {
        lemma_paid_sum_mark(h, p, i, n - 1);
    }
}

/// With nothing marked paid the paid sum is zero.
proof fn lemma_paid_sum_none<D>(h: Seq<Hito<D>>, p: Seq<bool>, n: int)
    requires
        n <= p.len(),
        forall|k: int| 0 <= k < n ==> !(#[trigger] p[k]),
    ensures
        paid_sum(h, p, n) == 0,
    decreases n,
{
    if n > 0 {
        lemma_paid_sum_none(h, p, n - 1);
    }
}

/// In a well-formed escrow with no approved milestone nothing has been paid.
proof fn lemma_nothing_approved_nothing_paid<A, D>(e: EscrowView<A, D>)
    requires
        escrow_wf(e),
        !any_aprobado(e.hitos),
    ensures
        e.monto_pagado == 0,
{
    assert forall|k: int| 0 <= k < e.hitos.len() implies !(#[trigger] e.hitos_pagados[k]) by {
        if e.hitos_pagados[k] {
            assert(e.hitos[k].aprobado);
        }
    }
    lemma_paid_sum_none(e.hitos, e.hitos_pagados, e.hitos.len() as int);
}

/// The storage is empty or holds a well-formed escrow.
pub open spec fn storage_wf<A, D>(s: Option<EscrowView<A, D>>) -> bool {
    s matches Some(e) ==> escrow_wf(e)
}

/// Milestone lists with the same amounts, position by position, have the same sum.
proof fn lemma_total_pointwise<D>(h1: Seq<Hito<D>>, h2: Seq<Hito<D>>)
    requires
        h1.len() == h2.len(),
        forall|i: int| 0 <= i < h1.len() ==> #[trigger] h1[i].monto == h2[i].monto,
    ensures
        total_montos(h1) == total_montos(h2),
    decreases h1.len(),
{
    if h1.len() > 0 {
        lemma_total_pointwise(h1.drop_last(), h2.drop_last());
    }
}

/// Marking a milestone approved keeps every partial sum of the amounts.
proof fn lemma_sums_same_montos<D>(h1: Seq<Hito<D>>, h2: Seq<Hito<D>>)
    requires
        h1.len() == h2.len(),
        forall|i: int| 0 <= i < h1.len() ==> #[trigger] h1[i].monto == h2[i].monto,
    ensures
        total_montos(h1) == total_montos(h2),
        sums_fit(h1) == sums_fit(h2),
{
    lemma_total_pointwise(h1, h2);
    assert forall|k: int| 0 <= k <= h1.len() implies total_montos(h1.take(k)) == total_montos(
        h2.take(k),
    ) by {
        lemma_total_pointwise(h1.take(k), h2.take(k));
    }
    if sums_fit(h1) {
        assert forall|k: int| 0 <= k <= h2.len() implies #[trigger] in_i128(
            total_montos(h2.take(k)),
        ) by {
            assert(in_i128(total_montos(h1.take(k))));
        }
    }
    if sums_fit(h2) {
        assert forall|k: int| 0 <= k <= h1.len() implies #[trigger] in_i128(
            total_montos(h1.take(k)),
        ) by {
            assert(in_i128(total_montos(h2.take(k))));
        }
    }
}

/// Law: a newly created escrow (from a milestone list that fits in memory) is well formed.
pub proof fn lemma_initialize_wf<A, D>(
    stored: Option<EscrowView<A, D>>,
    empresa: A,
    freelancer: A,
    arbitro: A,
    token: A,
    hitos: Seq<Hito<D>>,
    created_at: u64,
)
    requires
        hitos.len() <= usize::MAX,
    ensures
        initialize_result(stored, empresa, freelancer, arbitro, token, hitos, created_at) matches Ok(
            e,
        ) ==> escrow_wf(e),
{
    if initialize_result(stored, empresa, freelancer, arbitro, token, hitos, created_at) is Ok {
        assert(hitos.take(hitos.len() as int) =~= hitos);
        assert(in_i128(total_montos(hitos.take(hitos.len() as int))));
        let p = Seq::new(hitos.len(), |i: int| false);
        lemma_paid_sum_none(hitos, p, hitos.len() as int);
    }
}

/// Law: every operation keeps the stored escrow well formed.
pub proof fn lemma_operations_keep_wf<A, D>(
    e: EscrowView<A, D>,
    monto: i128,
    hito_id: u32,
    monto_freelancer: i128,
    monto_empresa: i128,
)
    requires
        escrow_wf(e),
    ensures
        deposit_plan(Some(e), monto).result matches Ok(a) ==> escrow_wf(apply_spec(e, a.update)),
        approve_plan(Some(e), hito_id).result matches Ok(a) ==> escrow_wf(
            apply_spec(e, a.update),
        ),
        release_plan(Some(e), hito_id).result matches Ok(a) ==> escrow_wf(
            apply_spec(e, a.update),
        ),
        dispute_plan(Some(e)).result matches Ok(a) ==> escrow_wf(apply_spec(e, a.update)),
        resolve_plan(Some(e), monto_freelancer, monto_empresa).result matches Ok(a) ==> escrow_wf(
            apply_spec(e, a.update),
        ),
        cancel_plan(Some(e)).result matches Ok(a) ==> escrow_wf(apply_spec(e, a.update)),
{
    if let Some(i) = first_hito(e.hitos, hito_id) {
        assert(is_first_hito(e.hitos, hito_id, i));
        if approve_plan(Some(e), hito_id).result is Ok {
            let after = apply_spec(e, approve_plan(Some(e), hito_id).result->Ok_0.update);
            assert(forall|j: int| 0 <= j < e.hitos.len() ==> #[trigger] e.hitos[j].monto == after.hitos[j].monto);
            lemma_sums_same_montos(e.hitos, after.hitos);
            lemma_paid_sum_pointwise(e.hitos, after.hitos, e.hitos_pagados, e.hitos.len() as int);
            assert(after.hitos[i].aprobado);
        }
        if release_plan(Some(e), hito_id).result is Ok {
            let after = apply_spec(e, release_plan(Some(e), hito_id).result->Ok_0.update);
            lemma_paid_sum_mark(e.hitos, e.hitos_pagados, i, e.hitos.len() as int);
            assert(after.hitos_pagados =~= e.hitos_pagados.update(i, true));
        }
    }
    if cancel_plan(Some(e)).result is Ok && e.estado == Estado::Depositado {
        lemma_nothing_approved_nothing_paid(e);
    }
}

/// Law: no operation changes the agreed terms. Whatever update an operation
/// writes, the parties, the token, the total, the creation time and every
/// milestone's id, description and amount stay as they were; a milestone once
/// approved (or completed, or paid) stays so.
pub proof fn lemma_update_keeps_terms<A, D>(e: EscrowView<A, D>, u: Update)
    ensures
        apply_spec(e, u).empresa == e.empresa,
        apply_spec(e, u).freelancer == e.freelancer,
        apply_spec(e, u).arbitro == e.arbitro,
        apply_spec(e, u).token == e.token,
        apply_spec(e, u).monto_total == e.monto_total,
        apply_spec(e, u).created_at == e.created_at,
        apply_spec(e, u).hitos.len() == e.hitos.len(),
        apply_spec(e, u).hitos_pagados.len() == e.hitos_pagados.len(),
        forall|i: int|
            0 <= i < e.hitos_pagados.len() && e.hitos_pagados[i] ==> #[trigger] apply_spec(
                e,
                u,
            ).hitos_pagados[i],
        forall|i: int|
            0 <= i < e.hitos.len() ==> {
                let h = #[trigger] apply_spec(e, u).hitos[i];
                &&& h.id == e.hitos[i].id
                &&& h.descripcion == e.hitos[i].descripcion
                &&& h.monto == e.hitos[i].monto
                &&& e.hitos[i].aprobado ==> h.aprobado
                &&& e.hitos[i].completado ==> h.completado
            },
{
}

/// Law: a call that does not succeed leaves the storage as it was.
pub proof fn lemma_failed_call_keeps_storage<A, D>(
    storage: Option<EscrowView<A, D>>,
    plan: PlanView,
    signers: Signers,
)
    ensures
        call_outcome(storage, plan, signers).1 is Err ==> call_outcome(storage, plan, signers).0
            == storage,
{
}

/// Law: nothing is done without the right signature. Deposit, approval,
/// release and cancellation need the company; resolution needs the arbiter;
/// a dispute needs the company or the freelancer.
pub proof fn lemma_calls_need_signatures<A, D>(
    storage: Option<EscrowView<A, D>>,
    signers: Signers,
    monto: i128,
    hito_id: u32,
    monto_freelancer: i128,
    monto_empresa: i128,
)
    ensures
        call_outcome(storage, deposit_plan(storage, monto), signers).1 is Ok ==> signers.empresa,
        call_outcome(storage, approve_plan(storage, hito_id), signers).1 is Ok
            ==> signers.empresa,
        call_outcome(storage, release_plan(storage, hito_id), signers).1 is Ok
            ==> signers.empresa,
        call_outcome(storage, cancel_plan(storage), signers).1 is Ok ==> signers.empresa,
        call_outcome(
            storage,
            resolve_plan(storage, monto_freelancer, monto_empresa),
            signers,
        ).1 is Ok ==> signers.arbitro,
        call_outcome(storage, dispute_plan(storage), signers).1 is Ok ==> signers.empresa
            || signers.freelancer,
{
}

/// Law: a completed or cancelled escrow is final; every operation on it is
/// refused before asking for any signature.
pub proof fn lemma_closed_escrow_refuses_all<A, D>(
    e: EscrowView<A, D>,
    monto: i128,
    hito_id: u32,
    monto_freelancer: i128,
    monto_empresa: i128,
)
    requires
        e.estado == Estado::Completado || e.estado == Estado::Cancelado,
    ensures
        deposit_plan(Some(e), monto) == refused(Error::EstadoInvalido),
        approve_plan(Some(e), hito_id) == refused(Error::NoDepositado),
        release_plan(Some(e), hito_id) == refused(Error::NoDepositado),
        dispute_plan(Some(e)) == refused(Error::NoDepositado),
        resolve_plan(Some(e), monto_freelancer, monto_empresa) == refused(Error::EstadoInvalido),
        cancel_plan(Some(e)) == refused(Error::EstadoInvalido),
{
}

/// Law: an escrow is created only once.
pub proof fn lemma_initialize_once<A, D>(
    stored: EscrowView<A, D>,
    empresa: A,
    freelancer: A,
    arbitro: A,
    token: A,
    hitos: Seq<Hito<D>>,
    created_at: u64,
)
    ensures
        initialize_result(Some(stored), empresa, freelancer, arbitro, token, hitos, created_at)
            == Err::<EscrowView<A, D>, Failure>(Failure::Error(Error::YaInicializado)),
{
}

/// Law: a newly created escrow accepts the deposit of exactly its total,
/// which moves that amount from the company into the escrow.
pub proof fn lemma_new_escrow_accepts_its_total<A, D>(
    empresa: A,
    freelancer: A,
    arbitro: A,
    token: A,
    hitos: Seq<Hito<D>>,
    created_at: u64,
)
    ensures
        initialize_result(None, empresa, freelancer, arbitro, token, hitos, created_at) matches Ok(
            e,
        ) ==> deposit_plan(Some(e), e.monto_total) == granted(
            Auth::Requires(Party::Empresa),
            to_estado(e, Estado::Depositado),
            seq![pay(Account::Party(Party::Empresa), Account::Contract, e.monto_total)],
            true,
            Event::Deposit(e.monto_total),
        ),
{
}

/// Law: a milestone that was just approved can be released: the release pays
/// the freelancer that milestone's amount, adds it to the amount paid and marks
/// the milestone paid, unless that sum leaves `i128`.
pub proof fn lemma_approved_milestone_is_payable<A, D>(e: EscrowView<A, D>, hito_id: u32)
    requires
        escrow_wf(e),
        approve_plan(Some(e), hito_id).result is Ok,
    ensures
        ({
            let approved = apply_spec(e, approve_plan(Some(e), hito_id).result->Ok_0.update);
            let monto = e.hitos[first_hito(e.hitos, hito_id)->Some_0].monto;
            let pagado = e.monto_pagado + monto;
            &&& !in_i128(pagado) ==> release_plan(Some(approved), hito_id).result
                == Err::<crate::types::ActionView, Failure>(Failure::Overflow)
            &&& in_i128(pagado) ==> release_plan(Some(approved), hito_id) == granted(
                Auth::Requires(Party::Empresa),
                Update {
                    estado: if pagado == e.monto_total {
                        Estado::Completado
                    } else {
                        Estado::Depositado
                    },
                    monto_pagado: pagado as i128,
                    aprobar: None,
                    pagar: Some(first_hito(e.hitos, hito_id)->Some_0 as usize),
                },
                seq![pay(Account::Contract, Account::Party(Party::Freelancer), monto)],
                true,
                Event::PaymentReleased(hito_id, monto),
            )
        }),
{
    let i = first_hito(e.hitos, hito_id)->Some_0;
    assert(is_first_hito(e.hitos, hito_id, i));
    let approved = apply_spec(e, approve_plan(Some(e), hito_id).result->Ok_0.update);
    assert(is_first_hito(approved.hitos, hito_id, i));
    lemma_first_hito_is(approved.hitos, hito_id, i);
    if e.hitos_pagados[i] {
        assert(e.hitos[i].aprobado);
    }
}

/// Law: each milestone is paid at most once. Once a release has paid a
/// milestone, releasing the same id again is refused with `HitoYaPagado`, or
/// with `NoDepositado` when that release completed the escrow; nothing is
/// transferred.
pub proof fn lemma_paid_milestone_is_not_paid_again<A, D>(e: EscrowView<A, D>, hito_id: u32)
    requires
        escrow_wf(e),
        release_plan(Some(e), hito_id).result is Ok,
    ensures
        ({
            let after = apply_spec(e, release_plan(Some(e), hito_id).result->Ok_0.update);
            &&& after.estado == Estado::Depositado ==> release_plan(Some(after), hito_id)
                == refused_after(Party::Empresa, Error::HitoYaPagado)
            &&& after.estado != Estado::Depositado ==> release_plan(Some(after), hito_id)
                == refused(Error::NoDepositado)
        }),
{
    let i = first_hito(e.hitos, hito_id)->Some_0;
    assert(is_first_hito(e.hitos, hito_id, i));
    let after = apply_spec(e, release_plan(Some(e), hito_id).result->Ok_0.update);
    assert(is_first_hito(after.hitos, hito_id, i));
    lemma_first_hito_is(after.hitos, hito_id, i);
}

/// Law: right after the deposit the company can still cancel, and then gets
/// back exactly what it deposited; once a milestone is approved it cannot.
pub proof fn lemma_cancel_after_deposit_refunds<A, D>(e: EscrowView<A, D>, monto: i128)
    requires
        deposit_plan(Some(e), monto).result is Ok,
    ensures
        ({
            let deposited = apply_spec(e, deposit_plan(Some(e), monto).result->Ok_0.update);
            &&& !any_aprobado(e.hitos) ==> cancel_plan(Some(deposited)) == granted(
                Auth::Requires(Party::Empresa),
                to_estado(deposited, Estado::Cancelado),
                seq![pay(Account::Contract, Account::Party(Party::Empresa), monto)],
                false,
                Event::Cancelled,
            )
            &&& any_aprobado(e.hitos) ==> cancel_plan(Some(deposited)) == refused_after(
                Party::Empresa,
                Error::NoPuedeCancelar,
            )
        }),
{
}

/// Law: a cancellation after the deposit never refunds on top of a payment:
/// it succeeds only while nothing has been paid out.
pub proof fn lemma_refund_only_when_nothing_paid<A, D>(e: EscrowView<A, D>)
    requires
        escrow_wf(e),
        e.estado == Estado::Depositado,
        cancel_plan(Some(e)).result is Ok,
    ensures
        e.monto_pagado == 0,
{
    lemma_nothing_approved_nothing_paid(e);
}

/// The sum of the amounts of a list of transfers.
pub open spec fn total_transferred(ts: Seq<Transfer>) -> int
    decreases ts.len(),
{
    if ts.len() == 0 {
        0
    } else {
        total_transferred(ts.drop_last()) + ts.last().amount
    }
}

/// Law: a resolution pays out of the escrow at most the funds not yet paid out,
/// whatever the signs of the two shares.
pub proof fn lemma_resolve_within_funds<A, D>(
    e: EscrowView<A, D>,
    monto_freelancer: i128,
    monto_empresa: i128,
)
    requires
        resolve_plan(Some(e), monto_freelancer, monto_empresa).result is Ok,
    ensures
        ({
            let ts = resolve_plan(Some(e), monto_freelancer, monto_empresa).result->Ok_0.transfers;
            &&& total_transferred(ts) <= e.monto_total - e.monto_pagado
            &&& forall|k: int| 0 <= k < ts.len() ==> (#[trigger] ts[k]).from == Account::Contract
        }),
{
    let f = pay(Account::Contract, Account::Party(Party::Freelancer), monto_freelancer);
    let c = pay(Account::Contract, Account::Party(Party::Empresa), monto_empresa);
    let ts = resolve_plan(Some(e), monto_freelancer, monto_empresa).result->Ok_0.transfers;
    reveal_with_fuel(total_transferred, 3);
    if monto_freelancer > 0 && monto_empresa > 0 {
        assert(ts =~= seq![f, c]);
        assert(seq![f, c].drop_last() =~= seq![f]);
    } else if monto_freelancer > 0 {
        assert(ts =~= seq![f]);
    } else if monto_empresa > 0 {
        assert(ts =~= seq![c]);
    } else {
        assert(ts =~= Seq::<Transfer>::empty());
    }
}

/// Law: a release completes the escrow exactly when the amount paid reaches the total.
pub proof fn lemma_release_completes_when_paid_up<A, D>(e: EscrowView<A, D>, hito_id: u32)
    requires
        release_plan(Some(e), hito_id).result is Ok,
    ensures
        ({
            let after = apply_spec(e, release_plan(Some(e), hito_id).result->Ok_0.update);
            &&& after.estado == Estado::Completado <==> after.monto_pagado == e.monto_total
            &&& after.estado != Estado::Completado ==> after.estado == Estado::Depositado
        }),
{
}

/// The stage changes of the escrow's life cycle: `Activo` → `Depositado` by the
/// deposit; `Depositado` → `Completado` by the last release, → `Disputado` by a
/// dispute; `Disputado` → `Completado` by the resolution; `Activo` or
/// `Depositado` → `Cancelado` by a cancellation.
pub open spec fn stage_change_allowed(from: Estado, to: Estado) -> bool {
    ||| from == to
    ||| from == Estado::Activo && to == Estado::Depositado
    ||| from == Estado::Depositado && to == Estado::Completado
    ||| from == Estado::Depositado && to == Estado::Disputado
    ||| from == Estado::Disputado && to == Estado::Completado
    ||| from == Estado::Activo && to == Estado::Cancelado
    ||| from == Estado::Depositado && to == Estado::Cancelado
}

/// Law: every successful operation moves the escrow along the life cycle.
pub proof fn lemma_stage_changes_follow_the_life_cycle<A, D>(
    e: EscrowView<A, D>,
    monto: i128,
    hito_id: u32,
    monto_freelancer: i128,
    monto_empresa: i128,
)
    ensures
        deposit_plan(Some(e), monto).result matches Ok(a) ==> stage_change_allowed(
            e.estado,
            a.update.estado,
        ),
        approve_plan(Some(e), hito_id).result matches Ok(a) ==> stage_change_allowed(
            e.estado,
            a.update.estado,
        ),
        release_plan(Some(e), hito_id).result matches Ok(a) ==> stage_change_allowed(
            e.estado,
            a.update.estado,
        ),
        dispute_plan(Some(e)).result matches Ok(a) ==> stage_change_allowed(
            e.estado,
            a.update.estado,
        ),
        resolve_plan(Some(e), monto_freelancer, monto_empresa).result matches Ok(a)
            ==> stage_change_allowed(e.estado, a.update.estado),
        cancel_plan(Some(e)).result matches Ok(a) ==> stage_change_allowed(
            e.estado,
            a.update.estado,
        ),
{
}

/// Law: an `initialize` call without the company's signature aborts and leaves
/// the storage as it was; with it, the call gives exactly the decision of
/// `contract::initialize`: the new escrow is stored and the call publishes
/// `Initialized` with no transfer, or it fails and the storage is unchanged.
pub proof fn lemma_initialize_call_is_the_decision<A, D>(
    storage: Option<EscrowView<A, D>>,
    signers: Signers,
    empresa: A,
    freelancer: A,
    arbitro: A,
    token: A,
    hitos: Seq<Hito<D>>,
    created_at: u64,
)
    ensures
        !signers.empresa ==> opening_outcome(
            storage,
            initialize_plan(storage, empresa, freelancer, arbitro, token, hitos, created_at),
            signers,
        ) == (storage, Err::<crate::types::ActionView, Failure>(Failure::Unauthorized(Party::Empresa))),
        signers.empresa ==> opening_outcome(
            storage,
            initialize_plan(storage, empresa, freelancer, arbitro, token, hitos, created_at),
            signers,
        ) == match initialize_result(storage, empresa, freelancer, arbitro, token, hitos, created_at) {
            Ok(e) => (Some(e), Ok::<crate::types::ActionView, Failure>(opening_action())),
            Err(f) => (storage, Err(f)),
        },
{
}

} // verus!
