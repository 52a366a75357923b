use vstd::prelude::*;

verus! {

/// Failures that an escrow operation reports to its caller.
#[derive(Clone, Copy, Debug, PartialEq, Eq, Structural)]
pub enum Error {
    YaInicializado,
    NoInicializado,
    HitosVacios,
    EstadoInvalido,
    NoDepositado,
    HitoNoEncontrado,
    HitoYaAprobado,
    HitoYaPagado,
    HitoNoAprobado,
    MontoIncorrecto,
    FondosInsuficientes,
    NoAutorizado,
    NoPuedeCancelar,
}

/// The numeric code under which each error is published.
pub open spec fn error_code(e: Error) -> u32 {
    match e {
        Error::YaInicializado => 1,
        Error::NoInicializado => 2,
        Error::HitosVacios => 3,
        Error::EstadoInvalido => 10,
        Error::NoDepositado => 11,
        Error::HitoNoEncontrado => 20,
        Error::HitoYaAprobado => 21,
        Error::HitoYaPagado => 22,
        Error::HitoNoAprobado => 23,
        Error::MontoIncorrecto => 30,
        Error::FondosInsuficientes => 31,
        Error::NoAutorizado => 40,
        Error::NoPuedeCancelar => 50,
    }
}

impl Error {
    /// The numeric code of this error.
    pub fn code(&self) -> (c: u32)
        ensures
            c == error_code(*self),
    {
        match self {
            Error::YaInicializado => 1,
            Error::NoInicializado => 2,
            Error::HitosVacios => 3,
            Error::EstadoInvalido => 10,
            Error::NoDepositado => 11,
            Error::HitoNoEncontrado => 20,
            Error::HitoYaAprobado => 21,
            Error::HitoYaPagado => 22,
            Error::HitoNoAprobado => 23,
            Error::MontoIncorrecto => 30,
            Error::FondosInsuficientes => 31,
            Error::NoAutorizado => 40,
            Error::NoPuedeCancelar => 50,
        }
    }
}

} // verus!
