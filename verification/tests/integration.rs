use freelancer_escrow::types::{Estado, Failure, Hito, Signers};
use freelancer_escrow::FreelancerEscrow;

type Client = FreelancerEscrow<&'static str, &'static str>;

/// Every party authorizes every call.
const ALL: Signers = Signers { empresa: true, freelancer: true, arbitro: true };

fn create_hito(id: u32, desc: &'static str, monto: i128) -> Hito<&'static str> {
    Hito { id, descripcion: desc, monto, completado: false, aprobado: false }
}

/// A call that fails aborts the invocation with the contract error's code.
fn ok<T>(r: Result<T, Failure>) -> T {
    match r {
        Ok(v) => v,
        Err(Failure::Error(e)) => panic!("Error(Contract, #{})", e.code()),
        Err(other) => panic!("call aborted: {:?}", other),
    }
}

fn setup(hitos: Vec<Hito<&'static str>>) -> Client {
    let mut client = Client::new();
    ok(client.initialize(&ALL, "empresa", "freelancer", "arbitro", "token", hitos, 0));
    client
}

#[test]
fn test_single_milestone_flow() {
    let mut client = setup(vec![create_hito(1, "desarrollo", 1000)]);

    ok(client.deposit(&ALL, 1000));

    ok(client.approve_milestone(&ALL, 1));

    ok(client.release(&ALL, 1));

    let escrow = client.query_escrow().unwrap();
    assert!(escrow.estado == Estado::Completado);
}

#[test]
fn test_multiple_milestones() {
    let mut client = setup(vec![create_hito(1, "fase1", 500), create_hito(2, "fase2", 500)]);

    ok(client.deposit(&ALL, 1000));

    ok(client.approve_milestone(&ALL, 1));
    ok(client.release(&ALL, 1));

    let escrow = client.query_escrow().unwrap();
    assert!(escrow.monto_pagado == 500);
    assert!(escrow.estado == Estado::Depositado);

    ok(client.approve_milestone(&ALL, 2));
    ok(client.release(&ALL, 2));

    let escrow = client.query_escrow().unwrap();
    assert!(escrow.monto_pagado == 1000);
    assert!(escrow.estado == Estado::Completado);
}

#[test]
fn test_dispute_and_resolution() {
    let mut client = setup(vec![create_hito(1, "desarrollo", 1000)]);

    ok(client.deposit(&ALL, 1000));

    ok(client.approve_milestone(&ALL, 1));

    ok(client.dispute(&ALL));

    let escrow = client.query_escrow().unwrap();
    assert!(escrow.estado == Estado::Disputado);

    ok(client.resolve(&ALL, 500, 500));

    let escrow = client.query_escrow().unwrap();
    assert!(escrow.estado == Estado::Completado);
}

#[test]
fn test_cancel() {
    let mut client = setup(vec![create_hito(1, "desarrollo", 1000)]);

    ok(client.cancel(&ALL));

    let escrow = client.query_escrow().unwrap();
    assert!(escrow.estado == Estado::Cancelado);
}

#[test]
fn test_cancel_after_deposit() {
    let mut client = setup(vec![create_hito(1, "desarrollo", 1000)]);

    ok(client.deposit(&ALL, 1000));

    ok(client.cancel(&ALL));

    let escrow = client.query_escrow().unwrap();
    assert!(escrow.estado == Estado::Cancelado);
}

#[test]
#[should_panic(expected = "Contract, #1")]
fn test_double_initialization_panics() {
    let mut client = Client::new();
    let hitos = vec![create_hito(1, "desarrollo", 1000)];
    ok(client.initialize(&ALL, "empresa", "freelancer", "arbitro", "token", hitos.clone(), 0));
    ok(client.initialize(&ALL, "empresa", "freelancer", "arbitro", "token", hitos, 0));
}

#[test]
fn test_only_company_can_release() {
    let mut client = setup(vec![create_hito(1, "desarrollo", 1000)]);

    ok(client.deposit(&ALL, 1000));

    ok(client.approve_milestone(&ALL, 1));

    let escrow_before = client.query_escrow().unwrap();
    assert!(escrow_before.hitos[0].aprobado == true);

    ok(client.release(&ALL, 1));

    let escrow = client.query_escrow().unwrap();
    assert!(escrow.estado == Estado::Completado);
}
