use crate::common::ProtocolVersion;
use vstd::prelude::*;

verus! {

/// Result code of every RPC: one well-known code (`SUCCESS_CODE`) means
/// success, every other code is a domain failure whose optional message is
/// the diagnostic text.
#[derive(Clone, Debug, PartialEq)]
pub struct TSStatus {
    pub code: i32,
    pub message: Option<String>,
}

/// Open-session handshake request: protocol version, time zone, credentials
/// and the free-form session configuration pairs.
#[derive(Clone, Debug, PartialEq)]
pub struct TSOpenSessionReq {
    pub protocol_version: ProtocolVersion,
    pub zone_id: String,
    pub username: String,
    pub password: String,
    pub configuration: Vec<(String, String)>,
}

/// Open-session handshake reply: status, the protocol version the server
/// speaks (as its wire integer), and the session id it assigned on success.
#[derive(Clone, Debug, PartialEq)]
pub struct TSOpenSessionResp {
    pub status: TSStatus,
    pub server_protocol_version: i32,
    pub session_id: Option<i64>,
}

/// Close-session request, keyed by the session id being released.
#[derive(Clone, Debug, PartialEq)]
pub struct TSCloseSessionReq {
    pub session_id: i64,
}

/// Set-storage-group request.
#[derive(Clone, Debug, PartialEq)]
pub struct TSSetStorageGroupReq {
    pub session_id: i64,
    pub storage_group: String,
}

/// Delete-storage-groups request.
#[derive(Clone, Debug, PartialEq)]
pub struct TSDeleteStorageGroupsReq {
    pub session_id: i64,
    pub storage_groups: Vec<String>,
}

/// Create-one-timeseries request; the three schema tags travel as their wire
/// integers.
#[derive(Clone, Debug, PartialEq)]
pub struct TSCreateTimeseriesReq {
    pub session_id: i64,
    pub path: String,
    pub data_type: i32,
    pub encoding: i32,
    pub compressor: i32,
}

/// Create-many-timeseries request, with parallel per-path tag lists.
#[derive(Clone, Debug, PartialEq)]
pub struct TSCreateMultiTimeseriesReq {
    pub session_id: i64,
    pub paths: Vec<String>,
    pub data_types: Vec<i32>,
    pub encodings: Vec<i32>,
    pub compressors: Vec<i32>,
}

/// Delete-timeseries request.
#[derive(Clone, Debug, PartialEq)]
pub struct TSDeleteTimeseriesReq {
    pub session_id: i64,
    pub paths: Vec<String>,
}

/// Delete-data request: remove all points of the named series whose
/// timestamp lies in `[start_time, end_time]`.
#[derive(Clone, Debug, PartialEq)]
pub struct TSDeleteDataReq {
    pub session_id: i64,
    pub paths: Vec<String>,
    pub start_time: i64,
    pub end_time: i64,
}

/// Insert one row of string-rendered values per device.
#[derive(Clone, Debug, PartialEq)]
pub struct TSInsertStringRecordsReq {
    pub session_id: i64,
    pub prefix_paths: Vec<String>,
    pub measurements_list: Vec<Vec<String>>,
    pub values_list: Vec<Vec<String>>,
    pub timestamps: Vec<i64>,
    pub is_aligned: bool,
}

/// Insert one pre-encoded record.
#[derive(Clone, Debug, PartialEq)]
pub struct TSInsertRecordReq {
    pub session_id: i64,
    pub prefix_path: String,
    pub measurements: Vec<String>,
    pub values: Vec<u8>,
    pub timestamp: i64,
    pub is_aligned: bool,
}

/// Insert several pre-encoded records.
#[derive(Clone, Debug, PartialEq)]
pub struct TSInsertRecordsReq {
    pub session_id: i64,
    pub prefix_paths: Vec<String>,
    pub measurements_list: Vec<Vec<String>>,
    pub values_list: Vec<Vec<u8>>,
    pub timestamps: Vec<i64>,
    pub is_aligned: bool,
}

/// Insert several pre-encoded records of one device.
#[derive(Clone, Debug, PartialEq)]
pub struct TSInsertRecordsOfOneDeviceReq {
    pub session_id: i64,
    pub prefix_path: String,
    pub measurements_list: Vec<Vec<String>>,
    pub values_list: Vec<Vec<u8>>,
    pub timestamps: Vec<i64>,
    pub is_aligned: bool,
}

/// Insert one tablet: per-column value and timestamp blocks of `size` rows.
#[derive(Clone, Debug, PartialEq)]
pub struct TSInsertTabletReq {
    pub session_id: i64,
    pub prefix_path: String,
    pub measurements: Vec<String>,
    pub values: Vec<u8>,
    pub timestamps: Vec<u8>,
    pub types: Vec<i32>,
    pub size: i32,
    pub is_aligned: bool,
}

/// Insert several independent tablets.
#[derive(Clone, Debug, PartialEq)]
pub struct TSInsertTabletsReq {
    pub session_id: i64,
    pub prefix_paths: Vec<String>,
    pub measurements_list: Vec<Vec<String>>,
    pub values_list: Vec<Vec<u8>>,
    pub timestamps_list: Vec<Vec<u8>>,
    pub types_list: Vec<Vec<i32>>,
    pub size_list: Vec<i32>,
    pub is_aligned: bool,
}

/// Execute one SQL statement within a session, correlated by statement id.
#[derive(Clone, Debug, PartialEq)]
pub struct TSExecuteStatementReq {
    pub session_id: i64,
    pub statement: String,
    pub statement_id: i64,
    pub fetch_size: i32,
    pub timeout: i64,
    pub enable_redirect_query: bool,
    pub jdbc_query: bool,
}

/// Execute a batch of statements; the reply carries a status only.
#[derive(Clone, Debug, PartialEq)]
pub struct TSExecuteBatchStatementReq {
    pub session_id: i64,
    pub statements: Vec<String>,
}

/// Fetch raw points of the named series in `[start_time, end_time)`.
#[derive(Clone, Debug, PartialEq)]
pub struct TSRawDataQueryReq {
    pub session_id: i64,
    pub paths: Vec<String>,
    pub fetch_size: i32,
    pub start_time: i64,
    pub end_time: i64,
    pub statement_id: i64,
    pub enable_redirect_query: bool,
    pub jdbc_query: bool,
}

/// Set the session's time zone.
#[derive(Clone, Debug, PartialEq)]
pub struct TSSetTimeZoneReq {
    pub session_id: i64,
    pub time_zone: String,
}

/// Reply to a get-time-zone request.
#[derive(Clone, Debug, PartialEq)]
pub struct TSGetTimeZoneResp {
    pub status: TSStatus,
    pub time_zone: String,
}

/// Abandon an in-flight query's server-side result set.
#[derive(Clone, Debug, PartialEq)]
pub struct TSCancelOperationReq {
    pub session_id: i64,
    pub query_id: i64,
}

/// Raw columnar result block: the shared big-endian timestamp buffer, one
/// accumulated bitmap buffer per column, and one value buffer per column.
#[derive(Clone, Debug, PartialEq)]
pub struct TSQueryDataSet {
    pub time: Vec<u8>,
    pub bitmap_list: Vec<Vec<u8>>,
    pub value_list: Vec<Vec<u8>>,
}

/// Reply to a statement execution: the status, and -- for query-shaped
/// statements -- the result header (column names, their type names, an
/// optional name-to-buffer-index remap), the timestamp-suppression flag, the
/// query id and the raw columnar payload.
#[derive(Clone, Debug, PartialEq)]
pub struct TSExecuteStatementResp {
    pub status: TSStatus,
    pub columns: Option<Vec<String>>,
    pub data_type_list: Option<Vec<String>>,
    pub column_name_index_map: Option<Vec<(String, i32)>>,
    pub ignore_time_stamp: Option<bool>,
    pub query_id: Option<i64>,
    pub query_data_set: Option<TSQueryDataSet>,
}

} // verus!
