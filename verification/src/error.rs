use vstd::prelude::*;

verus! {

/// The single failure the driver reports: a bus transaction that did not
/// complete, carrying the transport's own description of the fault.
#[derive(Debug, Clone, PartialEq, Eq)]
pub enum Bme280Error {
    I2cError(String),
}

pub type Bme280Result<T> = Result<T, Bme280Error>;

impl Bme280Error {
    /// The transport's description of the fault, for display.
    pub fn message(&self) -> (r: String)
        ensures
            self matches Bme280Error::I2cError(s) && r@ == s@,
    {
        match self {
            Bme280Error::I2cError(s) => s.clone(),
        }
    }
}

} // verus!
