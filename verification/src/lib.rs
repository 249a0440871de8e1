//! The decision core of a cluster controller that keeps one custom resource,
//! an AI-agent prompt, in step with the cluster: the change fingerprint, the
//! finalizer bookkeeping, the choice of action and the course of one
//! reconciliation pass, each with a proved contract.

pub mod action;
pub mod aioperator;
pub mod annotations;
pub mod controller;
pub mod crd;
pub mod error;
pub mod finalizer;
pub mod fingerprint;
pub mod text;

pub use crate::fingerprint::create_hash;
