//! Settlement logic for diaspora mortgages and fractional property income.
//!
//! Six contracts, each a plain state with operations on it. No operation
//! performs input or output. What a contract reads of the ledger arrives in an
//! [`host::Env`] and in arguments; what it wants done to the world is appended,
//! in order, to its `outbox`, for the host to carry out.
//!
//! An operation that is refused returns the contract's error and leaves the
//! contract exactly as it was.

pub mod accrual;
pub mod arith;
pub mod governance;
pub mod host;
pub mod income_distributor;
pub mod income_rules;
pub mod ledger_laws;
pub mod ledger_rules;
pub mod lending_laws;
pub mod lending_pool;
pub mod lending_rules;
pub mod market;
pub mod mortgage_laws;
pub mod mortgage_pool;
pub mod mortgage_rules;
pub mod offering;
pub mod offering_laws;
pub mod offering_rules;
pub mod property_registry;
pub mod protocol;
pub mod registry_laws;
pub mod registry_rules;
pub mod share_ledger;
pub mod table;
