//! What each operation does, stated over the escrow's fields and the call's
//! inputs and results alone.
use vstd::prelude::*;

use crate::call_outcome;
use crate::contract::{
    apply_spec, approve_plan, auth_outcome, initialize_plan, cancel_plan, deposit_plan, dispute_plan, first_hito,
    initialize_result, is_first_hito, lemma_first_hito_is, release_plan, resolve_plan, sums_fit,
    total_montos,
};
use crate::errors::{Error, error_code};
use crate::types::{
    Account, ActionView, Auth, EscrowView, Estado, Event, Failure, Hito, Party, PlanView, Signers,
    Transfer,
};

verus! {

/// The sum of the milestones' amounts, added from the first to the last.
pub open spec fn sum_of_amounts<D>(hitos: Seq<Hito<D>>) -> int {
    hitos.fold_left(0int, |s: int, h: Hito<D>| s + h.monto)
}

/// `i` is the position of the first milestone whose id is `id`.
pub open spec fn first_with_id<D>(hitos: Seq<Hito<D>>, id: u32, i: int) -> bool {
    &&& 0 <= i < hitos.len()
    &&& hitos[i].id == id
    &&& forall|j: int| 0 <= j < i ==> hitos[j].id != id
}

proof fn lemma_total_is_sum<D>(hitos: Seq<Hito<D>>)
    ensures
        total_montos(hitos) == sum_of_amounts(hitos),
    decreases hitos.len(),
{
    if hitos.len() > 0 {
        lemma_total_is_sum(hitos.drop_last());
    }
}

/// Some milestone carries `id` exactly when there is a first one that does.
proof fn lemma_first_exists<D>(hitos: Seq<Hito<D>>, id: u32, j: int)
    requires
        0 <= j < hitos.len(),
        hitos[j].id == id,
    ensures
        exists|i: int| first_with_id(hitos, id, i),
    decreases j,
{
    if exists|k: int| 0 <= k < j && hitos[k].id == id {
        let k = choose|k: int| 0 <= k < j && hitos[k].id == id;
        lemma_first_exists(hitos, id, k);
    } else {
        assert(first_with_id(hitos, id, j));
    }
}

/// The lookup finds the first milestone with the id, searching the whole list.
proof fn lemma_lookup<D>(hitos: Seq<Hito<D>>, id: u32)
    ensures
        first_hito(hitos, id) matches Some(i) ==> first_with_id(hitos, id, i),
        first_hito(hitos, id) is None ==> forall|j: int| 0 <= j < hitos.len() ==> hitos[j].id != id,
        forall|i: int| first_with_id(hitos, id, i) ==> first_hito(hitos, id) == Some(i),
{
    if let Some(i) = first_hito(hitos, id) {
        assert(is_first_hito(hitos, id, i));
    } else {
        assert forall|j: int| 0 <= j < hitos.len() implies hitos[j].id != id by {
            if hitos[j].id == id {
                lemma_first_exists(hitos, id, j);
                let i = choose|i: int| first_with_id(hitos, id, i);
                assert(is_first_hito(hitos, id, i));
            }
        }
    }
    assert forall|i: int| first_with_id(hitos, id, i) implies first_hito(hitos, id) == Some(i) by {
        assert(is_first_hito(hitos, id, i));
        lemma_first_hito_is(hitos, id, i);
    }
}

/// Law: the milestone lookup searches the whole list and finds the first
/// milestone carrying the id; it finds none only when no milestone carries it.
pub proof fn lemma_lookup_finds_the_first_match<D>(hitos: Seq<Hito<D>>, id: u32)
    ensures
        (exists|j: int| 0 <= j < hitos.len() && hitos[j].id == id) ==> first_hito(hitos, id) is Some,
        first_hito(hitos, id) matches Some(i) ==> first_with_id(hitos, id, i),
{
    lemma_lookup(hitos, id);
    if exists|j: int| 0 <= j < hitos.len() && hitos[j].id == id {
        let j = choose|j: int| 0 <= j < hitos.len() && hitos[j].id == id;
        lemma_first_exists(hitos, id, j);
    }
}

/// Law: `initialize` creates the escrow exactly when nothing is stored, the
/// list of milestones is not empty and adding up their amounts one by one never
/// leaves `i128`. The new escrow is `Activo`, nothing paid, no milestone paid,
/// holds the given parties, milestones and time, and its total is the sum of
/// every milestone's amount.
pub proof fn lemma_initialize_law<A, D>(
    stored: Option<EscrowView<A, D>>,
    empresa: A,
    freelancer: A,
    arbitro: A,
    token: A,
    hitos: Seq<Hito<D>>,
    created_at: u64,
)
    ensures
        initialize_result(stored, empresa, freelancer, arbitro, token, hitos, created_at) is Ok
            <==> (stored is None && hitos.len() > 0 && forall|k: int|
            0 <= k <= hitos.len() ==> i128::MIN <= #[trigger] sum_of_amounts(hitos.take(k))
                <= i128::MAX),
        stored is Some ==> initialize_result(
            stored,
            empresa,
            freelancer,
            arbitro,
            token,
            hitos,
            created_at,
        ) == Err::<EscrowView<A, D>, Failure>(Failure::Error(Error::YaInicializado)),
        stored is None && hitos.len() == 0 ==> initialize_result(
            stored,
            empresa,
            freelancer,
            arbitro,
            token,
            hitos,
            created_at,
        ) == Err::<EscrowView<A, D>, Failure>(Failure::Error(Error::HitosVacios)),
        initialize_result(stored, empresa, freelancer, arbitro, token, hitos, created_at) matches Ok(
            e,
        ) ==> {
            &&& e.monto_total == sum_of_amounts(hitos)
            &&& e.monto_pagado == 0
            &&& e.estado == Estado::Activo
            &&& e.hitos == hitos
            &&& e.hitos_pagados.len() == hitos.len()
            &&& forall|i: int| 0 <= i < hitos.len() ==> !e.hitos_pagados[i]
            &&& e.empresa == empresa && e.freelancer == freelancer && e.arbitro == arbitro
            &&& e.token == token && e.created_at == created_at
        },
        initialize_plan(stored, empresa, freelancer, arbitro, token, hitos, created_at).auth
            == Auth::Requires(Party::Empresa),
        initialize_plan(stored, empresa, freelancer, arbitro, token, hitos, created_at).result
            is Ok <==> initialize_result(
            stored,
            empresa,
            freelancer,
            arbitro,
            token,
            hitos,
            created_at,
        ) is Ok,
        initialize_plan(stored, empresa, freelancer, arbitro, token, hitos, created_at).result
            matches Err(f) ==> initialize_result(
            stored,
            empresa,
            freelancer,
            arbitro,
            token,
            hitos,
            created_at,
        ) == Err::<EscrowView<A, D>, Failure>(f),
        initialize_plan(stored, empresa, freelancer, arbitro, token, hitos, created_at).result
            matches Ok(r) ==> {
            &&& Ok::<EscrowView<A, D>, Failure>(r.0) == initialize_result(
                stored,
                empresa,
                freelancer,
                arbitro,
                token,
                hitos,
                created_at,
            )
            &&& r.1.transfers.len() == 0
            &&& r.1.event == Event::Initialized
            &&& !r.1.extend_ttl
            &&& r.1.update.estado == Estado::Activo
            &&& r.1.update.monto_pagado == 0
        },
{
    lemma_total_is_sum(hitos);
    assert(hitos.take(hitos.len() as int) =~= hitos);
    if sums_fit(hitos) {
        assert(crate::contract::in_i128(total_montos(hitos.take(hitos.len() as int))));
    }
    assert forall|k: int| 0 <= k <= hitos.len() implies total_montos(hitos.take(k))
        == sum_of_amounts(hitos.take(k)) by {
        lemma_total_is_sum(hitos.take(k));
    }
    if sums_fit(hitos) {
        assert forall|k: int| 0 <= k <= hitos.len() implies i128::MIN <= #[trigger] sum_of_amounts(
            hitos.take(k),
        ) <= i128::MAX by {
            assert(crate::contract::in_i128(total_montos(hitos.take(k))));
        }
    }
    if forall|k: int|
        0 <= k <= hitos.len() ==> i128::MIN <= #[trigger] sum_of_amounts(hitos.take(k))
            <= i128::MAX {
        assert forall|k: int| 0 <= k <= hitos.len() implies #[trigger] crate::contract::in_i128(
            total_montos(hitos.take(k)),
        ) by {
            assert(i128::MIN <= sum_of_amounts(hitos.take(k)) <= i128::MAX);
        }
    }
}

/// Law: a deposit succeeds exactly on an `Activo` escrow with its total as the
/// amount; it moves that amount from the company into the escrow, makes the
/// escrow `Depositado` and changes nothing else. On another stage it is refused
/// with `EstadoInvalido` before any signature; with another amount, with
/// `MontoIncorrecto` after the company's.
pub proof fn lemma_deposit_law<A, D>(e: EscrowView<A, D>, monto: i128)
    ensures
        deposit_plan(Some(e), monto).result is Ok <==> (e.estado == Estado::Activo && monto
            == e.monto_total),
        e.estado != Estado::Activo ==> deposit_plan(Some(e), monto).auth == Auth::Nobody
            && deposit_plan(Some(e), monto).result == Err::<crate::types::ActionView, Failure>(
            Failure::Error(Error::EstadoInvalido),
        ),
        e.estado == Estado::Activo ==> deposit_plan(Some(e), monto).auth == Auth::Requires(
            Party::Empresa,
        ),
        e.estado == Estado::Activo && monto != e.monto_total ==> deposit_plan(
            Some(e),
            monto,
        ).result == Err::<crate::types::ActionView, Failure>(
            Failure::Error(Error::MontoIncorrecto),
        ),
        deposit_plan(Some(e), monto).result matches Ok(a) ==> {
            let after = apply_spec(e, a.update);
            &&& a.transfers == seq![
                Transfer {
                    from: Account::Party(Party::Empresa),
                    to: Account::Contract,
                    amount: e.monto_total,
                },
            ]
            &&& a.event == Event::Deposit(e.monto_total)
            &&& a.extend_ttl
            &&& after.estado == Estado::Depositado
            &&& after.monto_pagado == e.monto_pagado
            &&& after.hitos == e.hitos
            &&& after.hitos_pagados == e.hitos_pagados
        },
{
}

/// Law: an approval succeeds exactly on a `Depositado` escrow whose first
/// milestone with the id exists and is not approved; it marks exactly that
/// milestone completed and approved, transfers nothing and changes nothing
/// else. It is refused with `HitoNoEncontrado` only when no milestone carries
/// the id, and with `HitoYaAprobado` when the first one is approved.
pub proof fn lemma_approve_law<A, D>(e: EscrowView<A, D>, hito_id: u32)
    requires
        e.hitos.len() <= usize::MAX,
    ensures
        approve_plan(Some(e), hito_id).result is Ok <==> (e.estado == Estado::Depositado && exists|
            i: int,
        | first_with_id(e.hitos, hito_id, i) && !e.hitos[i].aprobado),
        e.estado == Estado::Depositado ==> approve_plan(Some(e), hito_id).auth == Auth::Requires(
            Party::Empresa,
        ),
        e.estado != Estado::Depositado ==> approve_plan(Some(e), hito_id).auth == Auth::Nobody,
        e.estado != Estado::Depositado ==> approve_plan(Some(e), hito_id).result == Err::<
            crate::types::ActionView,
            Failure,
        >(Failure::Error(Error::NoDepositado)),
        e.estado == Estado::Depositado ==> (approve_plan(Some(e), hito_id).result == Err::<
            crate::types::ActionView,
            Failure,
        >(Failure::Error(Error::HitoNoEncontrado)) <==> forall|j: int|
            0 <= j < e.hitos.len() ==> e.hitos[j].id != hito_id),
        forall|i: int|
            e.estado == Estado::Depositado && first_with_id(e.hitos, hito_id, i)
                && e.hitos[i].aprobado ==> approve_plan(Some(e), hito_id).result == Err::<
                crate::types::ActionView,
                Failure,
            >(Failure::Error(Error::HitoYaAprobado)),
        forall|i: int|
            e.estado == Estado::Depositado && first_with_id(e.hitos, hito_id, i)
                && !e.hitos[i].aprobado ==> (approve_plan(Some(e), hito_id).result matches Ok(a)
                && {
                let after = apply_spec(e, a.update);
                &&& after.hitos == e.hitos.update(
                    i,
                    Hito { completado: true, aprobado: true, ..e.hitos[i] },
                )
                &&& a.transfers.len() == 0
                &&& a.event == Event::MilestoneApproved(hito_id)
                &&& a.extend_ttl
                &&& after.estado == Estado::Depositado
                &&& after.monto_pagado == e.monto_pagado
                &&& after.hitos_pagados == e.hitos_pagados
            }),
{
    lemma_lookup(e.hitos, hito_id);
    if let Some(i) = first_hito(e.hitos, hito_id) {
        assert(first_with_id(e.hitos, hito_id, i));
    }
}

/// Law: a release succeeds exactly on a `Depositado` escrow whose first
/// milestone with the id is approved and not paid yet (and when the new paid
/// amount fits `i128`); it pays the freelancer that milestone's amount, adds
/// it to the amount paid, marks that milestone paid and changes nothing else.
/// The escrow becomes `Completado` when the amount paid reaches the total and
/// stays `Depositado` otherwise.
pub proof fn lemma_release_law<A, D>(e: EscrowView<A, D>, hito_id: u32)
    requires
        e.hitos.len() <= usize::MAX,
        e.hitos_pagados.len() == e.hitos.len(),
    ensures
        release_plan(Some(e), hito_id).result is Ok <==> (e.estado == Estado::Depositado && exists|
            i: int,
        |
            first_with_id(e.hitos, hito_id, i) && e.hitos[i].aprobado && !e.hitos_pagados[i]
                && i128::MIN <= e.monto_pagado + e.hitos[i].monto <= i128::MAX),
        e.estado == Estado::Depositado ==> release_plan(Some(e), hito_id).auth == Auth::Requires(
            Party::Empresa,
        ),
        e.estado != Estado::Depositado ==> release_plan(Some(e), hito_id).auth == Auth::Nobody,
        e.estado != Estado::Depositado ==> release_plan(Some(e), hito_id).result == Err::<
            crate::types::ActionView,
            Failure,
        >(Failure::Error(Error::NoDepositado)),
        e.estado == Estado::Depositado ==> (release_plan(Some(e), hito_id).result == Err::<
            crate::types::ActionView,
            Failure,
        >(Failure::Error(Error::HitoNoEncontrado)) <==> forall|j: int|
            0 <= j < e.hitos.len() ==> e.hitos[j].id != hito_id),
        forall|i: int|
            e.estado == Estado::Depositado && first_with_id(e.hitos, hito_id, i) ==> {
                &&& !e.hitos[i].aprobado ==> release_plan(Some(e), hito_id).result == Err::<
                    crate::types::ActionView,
                    Failure,
                >(Failure::Error(Error::HitoNoAprobado))
                &&& e.hitos[i].aprobado && e.hitos_pagados[i] ==> release_plan(
                    Some(e),
                    hito_id,
                ).result == Err::<crate::types::ActionView, Failure>(
                    Failure::Error(Error::HitoYaPagado),
                )
                &&& release_plan(Some(e), hito_id).result matches Ok(a) ==> {
                    let after = apply_spec(e, a.update);
                    &&& a.transfers == seq![
                        Transfer {
                            from: Account::Contract,
                            to: Account::Party(Party::Freelancer),
                            amount: e.hitos[i].monto,
                        },
                    ]
                    &&& a.event == Event::PaymentReleased(hito_id, e.hitos[i].monto)
                    &&& a.extend_ttl
                    &&& after.monto_pagado == e.monto_pagado + e.hitos[i].monto
                    &&& after.hitos_pagados == e.hitos_pagados.update(i, true)
                    &&& after.hitos == e.hitos
                    &&& (after.estado == Estado::Completado <==> after.monto_pagado
                        == e.monto_total)
                    &&& (after.estado == Estado::Completado || after.estado
                        == Estado::Depositado)
                }
            },
{
    lemma_lookup(e.hitos, hito_id);
    if let Some(i) = first_hito(e.hitos, hito_id) {
        assert(first_with_id(e.hitos, hito_id, i));
    }
}

/// Law: a dispute can be opened only on a funded escrow: it succeeds exactly on
/// a `Depositado` escrow (given the company's or the freelancer's signature),
/// makes it `Disputado`, transfers nothing and changes nothing else; in every
/// other stage, a dispute already open included, it is refused with
/// `NoDepositado` before any signature.
pub proof fn lemma_dispute_law<A, D>(e: EscrowView<A, D>)
    ensures
        dispute_plan(Some(e)).result is Ok <==> e.estado == Estado::Depositado,
        e.estado != Estado::Depositado ==> dispute_plan(Some(e)).auth == Auth::Nobody
            && dispute_plan(Some(e)).result == Err::<crate::types::ActionView, Failure>(
            Failure::Error(Error::NoDepositado),
        ),
        e.estado == Estado::Depositado ==> dispute_plan(Some(e)).auth == Auth::EitherOf(
            Party::Empresa,
            Party::Freelancer,
        ),
        dispute_plan(Some(e)).result matches Ok(a) ==> {
            let after = apply_spec(e, a.update);
            &&& after.estado == Estado::Disputado
            &&& a.transfers.len() == 0
            &&& a.event == Event::DisputeOpened(Party::Freelancer)
            &&& !a.extend_ttl
            &&& after.monto_pagado == e.monto_pagado
            &&& after.hitos == e.hitos
            &&& after.hitos_pagados == e.hitos_pagados
            &&& dispute_plan(Some(after)).result == Err::<crate::types::ActionView, Failure>(
                Failure::Error(Error::NoDepositado),
            )
        },
{
}

/// Law: a resolution succeeds only on a disputed escrow, and exactly when the
/// positive shares together do not exceed the funds not yet paid out; it pays
/// each positive share to its party (the freelancer first), closes the escrow
/// as `Completado` and changes nothing else, so a second resolution is refused.
/// In any stage other than `Disputado` it is refused with `EstadoInvalido`
/// before any signature.
pub proof fn lemma_resolve_law<A, D>(e: EscrowView<A, D>, monto_freelancer: i128, monto_empresa: i128)
    ensures
        ({
            let disponibles = e.monto_total - e.monto_pagado;
            let pf: int = if monto_freelancer > 0 { monto_freelancer as int } else { 0 };
            let pe: int = if monto_empresa > 0 { monto_empresa as int } else { 0 };
            &&& resolve_plan(Some(e), monto_freelancer, monto_empresa).result is Ok <==> (e.estado
                == Estado::Disputado && i128::MIN <= disponibles <= i128::MAX && pf + pe
                <= disponibles)
            &&& e.estado == Estado::Disputado && i128::MIN <= disponibles <= i128::MAX && pf + pe
                > disponibles ==> resolve_plan(Some(e), monto_freelancer, monto_empresa).result
                == Err::<crate::types::ActionView, Failure>(
                Failure::Error(Error::FondosInsuficientes),
            )
        }),
        e.estado != Estado::Disputado ==> resolve_plan(
            Some(e),
            monto_freelancer,
            monto_empresa,
        ).auth == Auth::Nobody && resolve_plan(Some(e), monto_freelancer, monto_empresa).result
            == Err::<crate::types::ActionView, Failure>(Failure::Error(Error::EstadoInvalido)),
        e.estado == Estado::Disputado ==> resolve_plan(
            Some(e),
            monto_freelancer,
            monto_empresa,
        ).auth == Auth::Requires(Party::Arbitro),
        resolve_plan(Some(e), monto_freelancer, monto_empresa).result matches Ok(a) ==> {
            let after = apply_spec(e, a.update);
            let to_freelancer = Transfer {
                from: Account::Contract,
                to: Account::Party(Party::Freelancer),
                amount: monto_freelancer,
            };
            let to_empresa = Transfer {
                from: Account::Contract,
                to: Account::Party(Party::Empresa),
                amount: monto_empresa,
            };
            &&& a.transfers == (if monto_freelancer > 0 {
                seq![to_freelancer]
            } else {
                Seq::empty()
            }) + (if monto_empresa > 0 {
                seq![to_empresa]
            } else {
                Seq::empty()
            })
            &&& a.event == Event::DisputeResolved(monto_freelancer, monto_empresa)
            &&& !a.extend_ttl
            &&& after.estado == Estado::Completado
            &&& after.monto_pagado == e.monto_pagado
            &&& after.hitos == e.hitos
            &&& after.hitos_pagados == e.hitos_pagados
        },
        forall|x: i128, y: i128|
            #![trigger resolve_plan(Some(e), x, y)]
            resolve_plan(Some(e), monto_freelancer, monto_empresa).result matches Ok(a)
                ==> resolve_plan(Some(apply_spec(e, a.update)), x, y).result == Err::<
                crate::types::ActionView,
                Failure,
            >(Failure::Error(Error::EstadoInvalido)),
{
}

/// Law: a cancellation succeeds exactly on an `Activo` escrow, or a
/// `Depositado` one with no approved milestone; it makes the escrow
/// `Cancelado`, refunds the whole total to the company when it had been
/// deposited (and transfers nothing otherwise), and changes nothing else.
pub proof fn lemma_cancel_law<A, D>(e: EscrowView<A, D>)
    ensures
        cancel_plan(Some(e)).result is Ok <==> (e.estado == Estado::Activo || (e.estado
            == Estado::Depositado && forall|i: int| 0 <= i < e.hitos.len() ==> !e.hitos[i].aprobado)),
        e.estado != Estado::Activo && e.estado != Estado::Depositado ==> cancel_plan(Some(e)).auth
            == Auth::Nobody && cancel_plan(Some(e)).result == Err::<
            crate::types::ActionView,
            Failure,
        >(Failure::Error(Error::EstadoInvalido)),
        e.estado == Estado::Activo || e.estado == Estado::Depositado ==> cancel_plan(Some(e)).auth
            == Auth::Requires(Party::Empresa),
        e.estado == Estado::Depositado && (exists|i: int|
            0 <= i < e.hitos.len() && e.hitos[i].aprobado) ==> cancel_plan(Some(e)).result
            == Err::<ActionView, Failure>(Failure::Error(Error::NoPuedeCancelar)),
        cancel_plan(Some(e)).result matches Ok(a) ==> {
            let after = apply_spec(e, a.update);
            &&& after.estado == Estado::Cancelado
            &&& a.transfers == if e.estado == Estado::Depositado {
                seq![
                    Transfer {
                        from: Account::Contract,
                        to: Account::Party(Party::Empresa),
                        amount: e.monto_total,
                    },
                ]
            } else {
                Seq::empty()
            }
            &&& a.event == Event::Cancelled
            &&& !a.extend_ttl
            &&& after.monto_pagado == e.monto_pagado
            &&& after.hitos == e.hitos
            &&& after.hitos_pagados == e.hitos_pagados
        },
{
    if e.estado == Estado::Depositado && cancel_plan(Some(e)).result is Ok {
        assert forall|i: int| 0 <= i < e.hitos.len() implies !e.hitos[i].aprobado by {
            if e.hitos[i].aprobado {
                assert(crate::contract::any_aprobado(e.hitos));
            }
        }
    }
}

/// Law: a demanded signature is given exactly by the party's signature; of two
/// alternatives, by either one. A missing required signature aborts the call
/// (`Unauthorized`); a missing pair of alternatives returns `NoAutorizado`.
pub proof fn lemma_authorization_law(s: Signers, p: Party, q: Party)
    ensures
        auth_outcome(Auth::Nobody, s) is Ok,
        auth_outcome(Auth::Requires(Party::Empresa), s) is Ok <==> s.empresa,
        auth_outcome(Auth::Requires(Party::Freelancer), s) is Ok <==> s.freelancer,
        auth_outcome(Auth::Requires(Party::Arbitro), s) is Ok <==> s.arbitro,
        auth_outcome(Auth::Requires(p), s) is Err ==> auth_outcome(Auth::Requires(p), s) == Err::<
            (),
            Failure,
        >(Failure::Unauthorized(p)),
        auth_outcome(Auth::EitherOf(p, q), s) is Ok <==> (auth_outcome(Auth::Requires(p), s) is Ok
            || auth_outcome(Auth::Requires(q), s) is Ok),
        auth_outcome(Auth::EitherOf(p, q), s) is Err ==> auth_outcome(Auth::EitherOf(p, q), s)
            == Err::<(), Failure>(Failure::Error(Error::NoAutorizado)),
{
}

/// Law: a call succeeds exactly when its demanded signature is given and its
/// decision is an action; it then returns that action and stores the escrow
/// with the action's update written in. Otherwise it returns the failure (the
/// missing signature first) and the storage is unchanged.
pub proof fn lemma_call_law<A, D>(e: EscrowView<A, D>, plan: PlanView, s: Signers)
    ensures
        call_outcome(Some(e), plan, s).1 is Ok <==> (auth_outcome(plan.auth, s) is Ok
            && plan.result is Ok),
        auth_outcome(plan.auth, s) matches Err(f) ==> call_outcome(Some(e), plan, s) == (
            Some(e),
            Err::<ActionView, Failure>(f),
        ),
        auth_outcome(plan.auth, s) is Ok ==> match plan.result {
            Ok(a) => call_outcome(Some(e), plan, s) == (Some(apply_spec(e, a.update)), Ok::<
                ActionView,
                Failure,
            >(a)),
            Err(f) => call_outcome(Some(e), plan, s) == (Some(e), Err::<ActionView, Failure>(f)),
        },
{
}

/// Law: different errors are published under different codes.
pub proof fn lemma_error_codes_are_distinct(a: Error, b: Error)
    ensures
        error_code(a) == error_code(b) ==> a == b,
{
}

} // verus!
