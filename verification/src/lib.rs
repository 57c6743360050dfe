//! The decision logic of a delivery-versus-payment enclave: an asset
//! transaction and a payment transaction that reference each other and agree
//! on amounts are settled together; a lone transaction is recorded until its
//! counterpart arrives.
pub mod framing;
pub mod median;
pub mod protocol;
pub mod records;
pub mod replies;
pub mod service;
pub mod settlement;
pub mod text;
