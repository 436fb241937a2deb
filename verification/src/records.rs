//! Rows the stores hand out: logged worker errors and feature switches.
use vstd::prelude::*;
use crate::status::{ErrorSeverity, severity_name};
use crate::text::owned;

verus! {

/// A logged worker error, with the worker it belongs to.
#[derive(Debug, Clone)]
pub struct ErrorRecord {
    pub id: i64,
    pub worker_id: i64,
    pub worker_name: String,
    pub worker_address: String,
    /// The severity's stored name.
    pub severity: String,
    pub error_message: String,
    pub created_at: String,
}

/// A feature that can be switched on and off.
#[derive(Debug, Clone)]
pub struct FeatureToggleRecord {
    pub id: i64,
    pub key: String,
    pub enabled: bool,
    pub created_at: String,
    pub updated_at: String,
}

impl ErrorRecord {
    /// The record of an error of `severity` logged for a worker; the
    /// severity is stored by its name.
    pub fn new(
        id: i64,
        worker_id: i64,
        worker_name: String,
        worker_address: String,
        severity: ErrorSeverity,
        error_message: String,
        created_at: String,
    ) -> (r: Self)
        ensures
            r.id == id,
            r.worker_id == worker_id,
            r.worker_name == worker_name,
            r.worker_address == worker_address,
            r.severity@ == severity_name(severity),
            r.error_message == error_message,
            r.created_at == created_at,
    {
        ErrorRecord {
            id,
            worker_id,
            worker_name,
            worker_address,
            severity: owned(severity.as_str()),
            error_message,
            created_at,
        }
    }
}

} // verus!
