use freelancer_escrow::contract::{apply_update, check_auth, deposit, initialize, query_escrow};
use freelancer_escrow::types::{
    Account, Auth, Escrow, Estado, Event, Failure, Hito, Party, Signers, Transfer, Update,
};
use freelancer_escrow::{Error, FreelancerEscrow};

type Client = FreelancerEscrow<&'static str, &'static str>;

const ALL: Signers = Signers { empresa: true, freelancer: true, arbitro: true };
const NOBODY: Signers = Signers { empresa: false, freelancer: false, arbitro: false };

fn hito(id: u32, monto: i128) -> Hito<&'static str> {
    Hito { id, descripcion: "trabajo", monto, completado: false, aprobado: false }
}

fn created(hitos: Vec<Hito<&'static str>>) -> Client {
    let mut c = Client::new();
    c.initialize(&ALL, "empresa", "freelancer", "arbitro", "token", hitos, 42).unwrap();
    c
}

fn deposited(hitos: Vec<Hito<&'static str>>) -> Client {
    let mut c = created(hitos);
    let total = c.query_escrow().unwrap().monto_total;
    c.deposit(&ALL, total).unwrap();
    c
}

fn estado(c: &Client) -> Estado {
    c.query_escrow().unwrap().estado
}

fn contract_error(r: Result<impl std::fmt::Debug, Failure>) -> Error {
    match r {
        Err(Failure::Error(e)) => e,
        other => panic!("expected a contract error, got {:?}", other),
    }
}

const EMPRESA: Account = Account::Party(Party::Empresa);
const FREELANCER: Account = Account::Party(Party::Freelancer);

#[test]
fn error_codes_follow_the_published_numbering() {
    let codes = [
        (Error::YaInicializado, 1),
        (Error::NoInicializado, 2),
        (Error::HitosVacios, 3),
        (Error::EstadoInvalido, 10),
        (Error::NoDepositado, 11),
        (Error::HitoNoEncontrado, 20),
        (Error::HitoYaAprobado, 21),
        (Error::HitoYaPagado, 22),
        (Error::HitoNoAprobado, 23),
        (Error::MontoIncorrecto, 30),
        (Error::FondosInsuficientes, 31),
        (Error::NoAutorizado, 40),
        (Error::NoPuedeCancelar, 50),
    ];
    for (e, code) in codes {
        assert_eq!(e.code(), code);
    }
}

#[test]
fn initialize_sums_the_milestones() {
    let c = created(vec![hito(1, 300), hito(2, 450), hito(3, 250)]);
    let e = c.query_escrow().unwrap();
    assert_eq!(e.monto_total, 1000);
    assert_eq!(e.monto_pagado, 0);
    assert_eq!(e.estado, Estado::Activo);
    assert_eq!(e.created_at, 42);
    assert_eq!(e.empresa, "empresa");
    assert_eq!(e.freelancer, "freelancer");
    assert_eq!(e.arbitro, "arbitro");
    assert_eq!(e.token, "token");
    assert_eq!(e.hitos.len(), 3);
}

#[test]
fn initialize_publishes_the_initialized_event() {
    let mut c = Client::new();
    let a = c.initialize(&ALL, "e", "f", "a", "t", vec![hito(1, 10)], 0).unwrap();
    assert_eq!(a.event, Event::Initialized);
    assert!(a.transfers.is_empty());
    assert!(!a.extend_ttl);
    assert_eq!(a.update, Update { estado: Estado::Activo, monto_pagado: 0, aprobar: None, pagar: None });
}

#[test]
fn initialize_rejects_an_empty_milestone_list() {
    let mut c = Client::new();
    let r = c.initialize(&ALL, "e", "f", "a", "t", vec![], 0);
    assert_eq!(contract_error(r), Error::HitosVacios);
    assert_eq!(contract_error(c.query_escrow().map_err(Failure::Error)), Error::NoInicializado);
}

#[test]
fn initialize_needs_the_company() {
    let mut c = Client::new();
    let r = c.initialize(&NOBODY, "e", "f", "a", "t", vec![hito(1, 10)], 0);
    assert_eq!(r.unwrap_err(), Failure::Unauthorized(Party::Empresa));
    assert!(c.query_escrow().is_err());
}

#[test]
fn initialize_aborts_when_the_total_overflows() {
    let mut c = Client::new();
    let r = c.initialize(&ALL, "e", "f", "a", "t", vec![hito(1, i128::MAX), hito(2, 1)], 0);
    assert_eq!(r.unwrap_err(), Failure::Overflow);
    assert!(c.query_escrow().is_err());
}

#[test]
fn initialize_twice_is_refused_and_keeps_the_first_escrow() {
    let mut c = created(vec![hito(1, 1000)]);
    let r = c.initialize(&ALL, "otra", "f", "a", "t", vec![hito(7, 5)], 0);
    assert_eq!(contract_error(r), Error::YaInicializado);
    let e = c.query_escrow().unwrap();
    assert_eq!(e.empresa, "empresa");
    assert_eq!(e.monto_total, 1000);
}

#[test]
fn operations_before_initialize_are_refused() {
    let mut c = Client::new();
    assert_eq!(contract_error(c.deposit(&ALL, 1)), Error::NoInicializado);
    assert_eq!(contract_error(c.approve_milestone(&ALL, 1)), Error::NoInicializado);
    assert_eq!(contract_error(c.release(&ALL, 1)), Error::NoInicializado);
    assert_eq!(contract_error(c.dispute(&ALL)), Error::NoInicializado);
    assert_eq!(contract_error(c.resolve(&ALL, 1, 1)), Error::NoInicializado);
    assert_eq!(contract_error(c.cancel(&ALL)), Error::NoInicializado);
}

#[test]
fn deposit_moves_the_total_into_the_escrow() {
    let mut c = created(vec![hito(1, 600), hito(2, 400)]);
    let a = c.deposit(&ALL, 1000).unwrap();
    assert_eq!(a.transfers, vec![Transfer { from: EMPRESA, to: Account::Contract, amount: 1000 }]);
    assert_eq!(a.event, Event::Deposit(1000));
    assert!(a.extend_ttl);
    assert_eq!(estado(&c), Estado::Depositado);
}

#[test]
fn deposit_of_another_amount_is_refused() {
    let mut c = created(vec![hito(1, 1000)]);
    assert_eq!(contract_error(c.deposit(&ALL, 999)), Error::MontoIncorrecto);
    assert_eq!(estado(&c), Estado::Activo);
}

#[test]
fn deposit_twice_is_refused() {
    let mut c = deposited(vec![hito(1, 1000)]);
    assert_eq!(contract_error(c.deposit(&ALL, 1000)), Error::EstadoInvalido);
}

#[test]
fn deposit_without_the_company_aborts_and_changes_nothing() {
    let mut c = created(vec![hito(1, 1000)]);
    let only_freelancer = Signers { empresa: false, freelancer: true, arbitro: true };
    assert_eq!(c.deposit(&only_freelancer, 1000).unwrap_err(), Failure::Unauthorized(Party::Empresa));
    assert_eq!(estado(&c), Estado::Activo);
}

#[test]
fn wrong_stage_is_reported_before_any_signature() {
    // Before the deposit the stage check comes first, so a missing signature is not reached.
    let mut c = created(vec![hito(1, 1000)]);
    assert_eq!(contract_error(c.approve_milestone(&NOBODY, 1)), Error::NoDepositado);
    assert_eq!(contract_error(c.release(&NOBODY, 1)), Error::NoDepositado);
    assert_eq!(contract_error(c.dispute(&NOBODY)), Error::NoDepositado);
    assert_eq!(contract_error(c.resolve(&NOBODY, 0, 0)), Error::EstadoInvalido);
}

#[test]
fn approve_marks_the_milestone() {
    let mut c = deposited(vec![hito(1, 500), hito(2, 500)]);
    let a = c.approve_milestone(&ALL, 2).unwrap();
    assert!(a.transfers.is_empty());
    assert_eq!(a.event, Event::MilestoneApproved(2));
    assert!(a.extend_ttl);
    let e = c.query_escrow().unwrap();
    assert!(e.hitos[1].aprobado && e.hitos[1].completado);
    assert!(!e.hitos[0].aprobado && !e.hitos[0].completado);
    assert_eq!(e.estado, Estado::Depositado);
}

#[test]
fn approve_errors() {
    let mut c = deposited(vec![hito(1, 1000)]);
    assert_eq!(contract_error(c.approve_milestone(&ALL, 9)), Error::HitoNoEncontrado);
    c.approve_milestone(&ALL, 1).unwrap();
    assert_eq!(contract_error(c.approve_milestone(&ALL, 1)), Error::HitoYaAprobado);
}

#[test]
fn approve_takes_the_first_milestone_with_the_id() {
    let mut c = deposited(vec![hito(4, 100), hito(4, 200)]);
    c.approve_milestone(&ALL, 4).unwrap();
    let e = c.query_escrow().unwrap();
    assert!(e.hitos[0].aprobado);
    assert!(!e.hitos[1].aprobado);
    // The first one is approved now, so the id is reported as already approved.
    assert_eq!(contract_error(c.approve_milestone(&ALL, 4)), Error::HitoYaAprobado);
}

#[test]
fn release_pays_the_milestone_amount() {
    let mut c = deposited(vec![hito(1, 300), hito(2, 700)]);
    c.approve_milestone(&ALL, 2).unwrap();
    let a = c.release(&ALL, 2).unwrap();
    assert_eq!(a.transfers, vec![Transfer { from: Account::Contract, to: FREELANCER, amount: 700 }]);
    assert_eq!(a.update.pagar, Some(1));
    assert_eq!(a.event, Event::PaymentReleased(2, 700));
    assert!(a.extend_ttl);
    let e = c.query_escrow().unwrap();
    assert_eq!(e.monto_pagado, 700);
    assert_eq!(e.estado, Estado::Depositado);
}

#[test]
fn release_errors() {
    let mut c = deposited(vec![hito(1, 1000)]);
    assert_eq!(contract_error(c.release(&ALL, 1)), Error::HitoNoAprobado);
    assert_eq!(contract_error(c.release(&ALL, 5)), Error::HitoNoEncontrado);
    c.approve_milestone(&ALL, 1).unwrap();
    let no_company = Signers { empresa: false, freelancer: true, arbitro: true };
    assert_eq!(c.release(&no_company, 1).unwrap_err(), Failure::Unauthorized(Party::Empresa));
    assert_eq!(c.query_escrow().unwrap().monto_pagado, 0);
}

#[test]
fn a_milestone_is_paid_only_once() {
    let mut c = deposited(vec![hito(1, 500), hito(2, 500)]);
    c.approve_milestone(&ALL, 1).unwrap();
    c.release(&ALL, 1).unwrap();
    assert_eq!(contract_error(c.release(&ALL, 1)), Error::HitoYaPagado);
    let e = c.query_escrow().unwrap();
    assert_eq!(e.monto_pagado, 500);
    assert_eq!(e.hitos_pagados, vec![true, false]);
    assert_eq!(e.estado, Estado::Depositado);
}

#[test]
fn releasing_the_last_milestone_again_finds_the_escrow_completed() {
    let mut c = deposited(vec![hito(1, 1000)]);
    c.approve_milestone(&ALL, 1).unwrap();
    c.release(&ALL, 1).unwrap();
    assert_eq!(contract_error(c.release(&ALL, 1)), Error::NoDepositado);
}

#[test]
fn release_aborts_when_the_paid_amount_overflows() {
    // Every running total fits (MAX, 0, MAX, MAX - 1), but paying the first and third
    // milestones does not.
    let mut c = deposited(vec![hito(1, i128::MAX), hito(2, -i128::MAX), hito(3, i128::MAX), hito(4, -1)]);
    c.approve_milestone(&ALL, 1).unwrap();
    c.approve_milestone(&ALL, 3).unwrap();
    c.release(&ALL, 1).unwrap();
    assert_eq!(c.query_escrow().unwrap().monto_pagado, i128::MAX);
    assert_eq!(c.release(&ALL, 3).unwrap_err(), Failure::Overflow);
    let e = c.query_escrow().unwrap();
    assert_eq!(e.monto_pagado, i128::MAX);
    assert_eq!(e.hitos_pagados, vec![true, false, false, false]);
}

#[test]
fn dispute_by_either_party() {
    for (empresa, freelancer) in [(true, false), (false, true), (true, true)] {
        let mut c = deposited(vec![hito(1, 1000)]);
        let s = Signers { empresa, freelancer, arbitro: false };
        let a = c.dispute(&s).unwrap();
        assert_eq!(a.event, Event::DisputeOpened(Party::Freelancer));
        assert!(a.transfers.is_empty());
        assert!(!a.extend_ttl);
        assert_eq!(estado(&c), Estado::Disputado);
    }
}

#[test]
fn dispute_without_company_or_freelancer_is_not_authorized() {
    let mut c = deposited(vec![hito(1, 1000)]);
    let only_arbiter = Signers { empresa: false, freelancer: false, arbitro: true };
    assert_eq!(contract_error(c.dispute(&only_arbiter)), Error::NoAutorizado);
    assert_eq!(estado(&c), Estado::Depositado);
}

#[test]
fn resolve_pays_both_parties() {
    let mut c = deposited(vec![hito(1, 1000)]);
    c.dispute(&ALL).unwrap();
    let a = c.resolve(&ALL, 600, 400).unwrap();
    assert_eq!(
        a.transfers,
        vec![
            Transfer { from: Account::Contract, to: FREELANCER, amount: 600 },
            Transfer { from: Account::Contract, to: EMPRESA, amount: 400 },
        ]
    );
    assert_eq!(a.event, Event::DisputeResolved(600, 400));
    assert!(!a.extend_ttl);
    assert_eq!(estado(&c), Estado::Completado);
}

#[test]
fn resolve_skips_non_positive_amounts() {
    let mut c = deposited(vec![hito(1, 1000)]);
    c.dispute(&ALL).unwrap();
    let a = c.resolve(&ALL, 0, 300).unwrap();
    assert_eq!(a.transfers, vec![Transfer { from: Account::Contract, to: EMPRESA, amount: 300 }]);
}

#[test]
fn resolve_counts_what_was_already_paid() {
    let mut c = deposited(vec![hito(1, 400), hito(2, 600)]);
    c.approve_milestone(&ALL, 1).unwrap();
    c.release(&ALL, 1).unwrap();
    c.dispute(&ALL).unwrap();
    assert_eq!(contract_error(c.resolve(&ALL, 601, 0)), Error::FondosInsuficientes);
    assert_eq!(estado(&c), Estado::Disputado);
    c.resolve(&ALL, 600, 0).unwrap();
    assert_eq!(estado(&c), Estado::Completado);
}

#[test]
fn resolve_errors() {
    let mut c = deposited(vec![hito(1, 1000)]);
    c.dispute(&ALL).unwrap();
    assert_eq!(contract_error(c.resolve(&ALL, 600, 500)), Error::FondosInsuficientes);
    let no_arbiter = Signers { empresa: true, freelancer: true, arbitro: false };
    assert_eq!(c.resolve(&no_arbiter, 1, 1).unwrap_err(), Failure::Unauthorized(Party::Arbitro));
    assert_eq!(contract_error(c.resolve(&ALL, i128::MAX, 1)), Error::FondosInsuficientes);
    assert_eq!(estado(&c), Estado::Disputado);
}

#[test]
fn resolve_counts_only_what_it_pays_out() {
    // A negative share pays nothing and does not make room for the other share.
    let mut c = deposited(vec![hito(1, 1000)]);
    c.dispute(&ALL).unwrap();
    assert_eq!(contract_error(c.resolve(&ALL, -100, 1100)), Error::FondosInsuficientes);
    assert_eq!(contract_error(c.resolve(&ALL, 2000, -1000)), Error::FondosInsuficientes);
    assert_eq!(estado(&c), Estado::Disputado);
    let a = c.resolve(&ALL, -100, 1000).unwrap();
    assert_eq!(a.transfers, vec![Transfer { from: Account::Contract, to: EMPRESA, amount: 1000 }]);
}

#[test]
fn resolve_with_shares_beyond_i128_is_refused() {
    let mut c = deposited(vec![hito(1, 1000)]);
    c.dispute(&ALL).unwrap();
    assert_eq!(contract_error(c.resolve(&ALL, i128::MAX, i128::MAX)), Error::FondosInsuficientes);
    let a = c.resolve(&ALL, i128::MIN, -1).unwrap();
    assert!(a.transfers.is_empty());
}

#[test]
fn cancel_before_deposit_moves_no_funds() {
    let mut c = created(vec![hito(1, 1000)]);
    let a = c.cancel(&ALL).unwrap();
    assert!(a.transfers.is_empty());
    assert_eq!(a.event, Event::Cancelled);
    assert!(!a.extend_ttl);
}

#[test]
fn cancel_after_deposit_refunds_the_total() {
    let mut c = deposited(vec![hito(1, 250), hito(2, 750)]);
    let a = c.cancel(&ALL).unwrap();
    assert_eq!(a.transfers, vec![Transfer { from: Account::Contract, to: EMPRESA, amount: 1000 }]);
    assert_eq!(estado(&c), Estado::Cancelado);
}

#[test]
fn cancel_errors() {
    let mut c = deposited(vec![hito(1, 1000)]);
    c.approve_milestone(&ALL, 1).unwrap();
    assert_eq!(contract_error(c.cancel(&ALL)), Error::NoPuedeCancelar);
    c.dispute(&ALL).unwrap();
    assert_eq!(contract_error(c.cancel(&ALL)), Error::EstadoInvalido);
    let mut d = created(vec![hito(1, 1000)]);
    assert_eq!(d.cancel(&NOBODY).unwrap_err(), Failure::Unauthorized(Party::Empresa));
}

#[test]
fn closed_escrows_refuse_everything() {
    let mut done = deposited(vec![hito(1, 1000)]);
    done.approve_milestone(&ALL, 1).unwrap();
    done.release(&ALL, 1).unwrap();
    let mut cancelled = created(vec![hito(1, 1000)]);
    cancelled.cancel(&ALL).unwrap();
    for c in [&mut done, &mut cancelled] {
        assert_eq!(contract_error(c.deposit(&ALL, 1000)), Error::EstadoInvalido);
        assert_eq!(contract_error(c.approve_milestone(&ALL, 1)), Error::NoDepositado);
        assert_eq!(contract_error(c.release(&ALL, 1)), Error::NoDepositado);
        assert_eq!(contract_error(c.dispute(&ALL)), Error::NoDepositado);
        assert_eq!(contract_error(c.resolve(&ALL, 0, 0)), Error::EstadoInvalido);
        assert_eq!(contract_error(c.cancel(&ALL)), Error::EstadoInvalido);
    }
}

#[test]
fn decision_functions_on_stored_escrow() {
    let stored: Option<Escrow<u8, u8>> = None;
    let plan = deposit(&stored, 10);
    assert_eq!(plan.auth, Auth::Nobody);
    assert_eq!(plan.result.unwrap_err(), Failure::Error(Error::NoInicializado));
    assert_eq!(query_escrow(&stored).unwrap_err(), Error::NoInicializado);

    let hitos = vec![Hito { id: 3, descripcion: 0u8, monto: 10, completado: false, aprobado: false }];
    let opening = initialize(&stored, 1u8, 2, 3, 4, hitos, 9);
    assert_eq!(opening.auth, Auth::Requires(Party::Empresa));
    let (e, action) = opening.result.unwrap();
    assert_eq!(e.monto_total, 10);
    assert_eq!(action.event, Event::Initialized);
    let stored = Some(e);
    let again = initialize(&stored, 1u8, 2, 3, 4, vec![], 9);
    assert_eq!(again.auth, Auth::Requires(Party::Empresa));
    assert_eq!(again.result.unwrap_err(), Failure::Error(Error::YaInicializado));
    let plan = deposit(&stored, 10);
    assert_eq!(plan.auth, Auth::Requires(Party::Empresa));
    let action = plan.result.unwrap();
    assert_eq!(action.update, Update { estado: Estado::Depositado, monto_pagado: 0, aprobar: None, pagar: None });

    let plan = deposit(&stored, 11);
    assert_eq!(plan.auth, Auth::Requires(Party::Empresa));
    assert_eq!(plan.result.unwrap_err(), Failure::Error(Error::MontoIncorrecto));
}

#[test]
fn apply_update_writes_the_update() {
    let mut e = Escrow {
        empresa: 1u8,
        freelancer: 2,
        arbitro: 3,
        token: 4,
        monto_total: 10,
        monto_pagado: 0,
        hitos: vec![Hito { id: 1, descripcion: 0u8, monto: 10, completado: false, aprobado: false }],
        hitos_pagados: vec![false],
        estado: Estado::Depositado,
        created_at: 0,
    };
    apply_update(&mut e, &Update { estado: Estado::Completado, monto_pagado: 10, aprobar: Some(0), pagar: Some(0) });
    assert_eq!(e.estado, Estado::Completado);
    assert_eq!(e.monto_pagado, 10);
    assert!(e.hitos[0].aprobado && e.hitos[0].completado);
    assert_eq!(e.hitos_pagados, vec![true]);
    // A position past the end touches no milestone.
    apply_update(&mut e, &Update { estado: Estado::Completado, monto_pagado: 10, aprobar: Some(5), pagar: None });
    assert_eq!(e.hitos.len(), 1);
}

#[test]
fn check_auth_decisions() {
    let only_freelancer = Signers { empresa: false, freelancer: true, arbitro: false };
    assert_eq!(check_auth(&Auth::Nobody, &NOBODY), Ok(()));
    assert_eq!(check_auth(&Auth::Requires(Party::Freelancer), &only_freelancer), Ok(()));
    assert_eq!(
        check_auth(&Auth::Requires(Party::Arbitro), &only_freelancer),
        Err(Failure::Unauthorized(Party::Arbitro))
    );
    assert_eq!(check_auth(&Auth::EitherOf(Party::Empresa, Party::Freelancer), &only_freelancer), Ok(()));
    assert_eq!(
        check_auth(&Auth::EitherOf(Party::Empresa, Party::Freelancer), &NOBODY),
        Err(Failure::Error(Error::NoAutorizado))
    );
}

#[test]
fn terms_stay_fixed_through_a_whole_flow() {
    let mut c = deposited(vec![hito(1, 400), hito(2, 600)]);
    c.approve_milestone(&ALL, 1).unwrap();
    c.release(&ALL, 1).unwrap();
    c.dispute(&ALL).unwrap();
    c.resolve(&ALL, 300, 300).unwrap();
    let e = c.query_escrow().unwrap();
    assert_eq!((e.empresa, e.freelancer, e.arbitro, e.token), ("empresa", "freelancer", "arbitro", "token"));
    assert_eq!(e.monto_total, 1000);
    assert_eq!(e.created_at, 42);
    let terms: Vec<(u32, &str, i128)> = e.hitos.iter().map(|h| (h.id, h.descripcion, h.monto)).collect();
    assert_eq!(terms, vec![(1, "trabajo", 400), (2, "trabajo", 600)]);
    assert!(e.hitos[0].aprobado && !e.hitos[1].aprobado);
    assert_eq!(e.monto_pagado, 400);
    assert_eq!(e.estado, Estado::Completado);
}
