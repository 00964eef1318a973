//! Verified state logic of the Creditra contracts: the credit contract's
//! admin-gated upgrade flow and the invoice contract's grace periods.

pub mod address;

pub mod invoice;
pub mod invoice_model;
pub mod credit_events;
pub mod credit;
pub mod invoice_laws;
pub mod credit_laws;
