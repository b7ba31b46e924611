//! Incidents as the database keeps them: its integers are signed.

use vstd::prelude::*;

use crate::clock::{signed_timestamp, to_signed, to_unsigned};
use crate::models::Incident;
use crate::reminders::IncidentWithMeta;

verus! {

/// One row of the incidents table, without the time of the last reminder.
#[derive(Debug)]
pub struct IncidentRow {
    pub id: String,
    pub service: String,
    pub started_at: i64,
    pub ended_at: Option<i64>,
    pub summary: Option<String>,
    pub remediation: Option<String>,
}

/// One row of the incidents table whose incident has not ended.
#[derive(Debug)]
pub struct OpenIncidentRow {
    pub id: String,
    pub service: String,
    pub started_at: i64,
    pub summary: Option<String>,
    pub remediation: Option<String>,
    pub last_reminded_at: Option<i64>,
}

/// Whether a stored time stands for a timestamp.
pub open spec fn stores(stored: Option<i64>, time: Option<u64>) -> bool {
    match (stored, time) {
        (Some(stored), Some(time)) => stored == signed_timestamp(time),
        (None, None) => true,
        _ => false,
    }
}

/// Whether a row stands for an incident.
pub open spec fn is_row_of(row: IncidentRow, incident: Incident) -> bool {
    &&& row.id == incident.id
    &&& row.service == incident.service
    &&& row.started_at == signed_timestamp(incident.started_at)
    &&& stores(row.ended_at, incident.ended_at)
    &&& row.summary == incident.summary
    &&& row.remediation == incident.remediation
}

/// Whether a row stands for an open incident.
pub open spec fn is_open_row_of(row: OpenIncidentRow, meta: IncidentWithMeta) -> bool {
    &&& row.id == meta.incident.id
    &&& row.service == meta.incident.service
    &&& row.started_at == signed_timestamp(meta.incident.started_at)
    &&& meta.incident.ended_at is None
    &&& row.summary == meta.incident.summary
    &&& row.remediation == meta.incident.remediation
    &&& stores(row.last_reminded_at, meta.last_reminded_at)
}

fn stored_time(time: Option<u64>) -> (stored: Option<i64>)
    ensures
        stores(stored, time),
{
    match time {
        Some(time) => Some(to_signed(time)),
        None => None,
    }
}

fn loaded_time(stored: Option<i64>) -> (time: Option<u64>)
    ensures
        stores(stored, time),
{
    match stored {
        Some(stored) => Some(to_unsigned(stored)),
        None => None,
    }
}

/// The row to write for an incident.
pub fn row_of_incident(incident: &Incident) -> (row: IncidentRow)
    ensures
        is_row_of(row, *incident),
        row.id == incident.id,
        row.service == incident.service,
        row.summary == incident.summary,
        row.remediation == incident.remediation,
        row.ended_at is None <==> incident.ended_at is None,
{
    IncidentRow {
        id: incident.id.clone(),
        service: incident.service.clone(),
        started_at: to_signed(incident.started_at),
        ended_at: stored_time(incident.ended_at),
        summary: incident.summary.clone(),
        remediation: incident.remediation.clone(),
    }
}

/// The incident that a row stands for.
pub fn incident_of_row(row: IncidentRow) -> (incident: Incident)
    ensures
        is_row_of(row, incident),
        incident.id == row.id,
        incident.service == row.service,
        incident.summary == row.summary,
        incident.remediation == row.remediation,
        incident.ended_at is None <==> row.ended_at is None,
{
    Incident {
        id: row.id,
        service: row.service,
        started_at: to_unsigned(row.started_at),
        ended_at: loaded_time(row.ended_at),
        summary: row.summary,
        remediation: row.remediation,
    }
}

/// The open incident that a row stands for.
pub fn open_incident_of_row(row: OpenIncidentRow) -> (meta: IncidentWithMeta)
    ensures
        is_open_row_of(row, meta),
        meta.incident.id == row.id,
        meta.incident.service == row.service,
        meta.incident.ended_at is None,
        meta.incident.summary == row.summary,
        meta.incident.remediation == row.remediation,
        meta.last_reminded_at is None <==> row.last_reminded_at is None,
{
    IncidentWithMeta {
        incident: Incident {
            id: row.id,
            service: row.service,
            started_at: to_unsigned(row.started_at),
            ended_at: None,
            summary: row.summary,
            remediation: row.remediation,
        },
        last_reminded_at: loaded_time(row.last_reminded_at),
    }
}

/// Storing keeps everything: two incidents with the same row are the same, so an
/// incident that is read back from its row is the one that was written.
pub proof fn law_row_determines_incident(row: IncidentRow, written: Incident, read: Incident)
    requires
        is_row_of(row, written),
        is_row_of(row, read),
    ensures
        read == written,
{
}

/// An open incident that is read back from its row is the one that was written.
pub proof fn law_open_row_determines_incident(
    row: OpenIncidentRow,
    written: IncidentWithMeta,
    read: IncidentWithMeta,
)
    requires
        is_open_row_of(row, written),
        is_open_row_of(row, read),
    ensures
        read == written,
{
}

/// Each column holds the value of its own name, and times up to the largest
/// signed number are stored as they are.
pub proof fn law_columns_hold_their_fields(row: IncidentRow, incident: Incident)
    requires
        is_row_of(row, incident),
    ensures
        row.id == incident.id,
        row.service == incident.service,
        row.summary == incident.summary,
        row.remediation == incident.remediation,
        incident.started_at <= i64::MAX ==> row.started_at == incident.started_at,
        incident.started_at > i64::MAX ==> row.started_at + 0x1_0000_0000_0000_0000
            == incident.started_at,
        row.ended_at is None <==> incident.ended_at is None,
        incident.ended_at matches Some(ended_at) ==> {
            &&& ended_at <= i64::MAX ==> row.ended_at->0 == ended_at
            &&& ended_at > i64::MAX ==> row.ended_at->0 + 0x1_0000_0000_0000_0000 == ended_at
        },
{
}

/// Each column of an open incident holds the value of its own name, and times up
/// to the largest signed number are stored as they are.
pub proof fn law_open_columns_hold_their_fields(row: OpenIncidentRow, meta: IncidentWithMeta)
    requires
        is_open_row_of(row, meta),
    ensures
        row.id == meta.incident.id,
        row.service == meta.incident.service,
        row.summary == meta.incident.summary,
        row.remediation == meta.incident.remediation,
        meta.incident.ended_at is None,
        meta.incident.started_at <= i64::MAX ==> row.started_at == meta.incident.started_at,
        meta.incident.started_at > i64::MAX ==> row.started_at + 0x1_0000_0000_0000_0000
            == meta.incident.started_at,
        row.last_reminded_at is None <==> meta.last_reminded_at is None,
        meta.last_reminded_at matches Some(reminded_at) ==> {
            &&& reminded_at <= i64::MAX ==> row.last_reminded_at->0 == reminded_at
            &&& reminded_at > i64::MAX ==> row.last_reminded_at->0 + 0x1_0000_0000_0000_0000
                == reminded_at
        },
{
}

} // verus!
