//! The one-byte tags of the protocol.
//!
//! Every frame starts with a byte that says what kind of message follows.
//! The same letter can mean different things in the two directions.

use vstd::prelude::*;

verus! {

/// Frontend `Q`: Query.
pub const QUERY: u8 = 0x51;

/// Frontend `P`: Parse.
pub const PARSE: u8 = 0x50;

/// Frontend `D`: Describe.
pub const DESCRIBE: u8 = 0x44;

/// Frontend `B`: Bind.
pub const BIND: u8 = 0x42;

/// Frontend `E`: Execute.
pub const EXECUTE: u8 = 0x45;

/// Frontend `H`: Flush.
pub const FLUSH: u8 = 0x48;

/// Frontend `S`: Sync.
pub const SYNC: u8 = 0x53;

/// Frontend `C`: Close.
pub const CLOSE: u8 = 0x43;

/// Frontend `X`: Terminate.
pub const TERMINATE: u8 = 0x58;

/// Frontend `p`: Password.
pub const PASSWORD: u8 = 0x70;

/// Frontend `f`: CopyFail.
pub const COPY_FAIL: u8 = 0x66;

/// Either direction `d`: CopyData.
pub const COPY_DATA: u8 = 0x64;

/// Either direction `c`: CopyDone.
pub const COPY_DONE: u8 = 0x63;

/// In Close and Describe, `S`: the target is a prepared statement.
pub const TARGET_STATEMENT: u8 = 0x53;

/// In Close and Describe, `P`: the target is a portal.
pub const TARGET_PORTAL: u8 = 0x50;

/// Backend `R`: any Authentication message.
pub const AUTHENTICATION: u8 = 0x52;

/// Backend `T`: RowDescription.
pub const ROW_DESCRIPTION: u8 = 0x54;

/// Backend `D`: DataRow.
pub const DATA_ROW: u8 = 0x44;

/// Backend `C`: CommandComplete.
pub const COMMAND_COMPLETE: u8 = 0x43;

/// Backend `I`: EmptyQueryResponse.
pub const EMPTY_QUERY_RESPONSE: u8 = 0x49;

/// Backend `Z`: ReadyForQuery.
pub const READY_FOR_QUERY: u8 = 0x5a;

/// Backend `n`: NoData.
pub const NO_DATA: u8 = 0x6e;

/// Backend `S`: ParameterStatus.
pub const PARAMETER_STATUS: u8 = 0x53;

/// Backend `s`: PortalSuspended.
pub const PORTAL_SUSPENDED: u8 = 0x73;

/// Backend `K`: BackendKeyData.
pub const BACKEND_KEY_DATA: u8 = 0x4b;

/// Backend `t`: ParameterDescription.
pub const PARAMETER_DESCRIPTION: u8 = 0x74;

/// Backend `1`: ParseComplete.
pub const PARSE_COMPLETE: u8 = 0x31;

/// Backend `2`: BindComplete.
pub const BIND_COMPLETE: u8 = 0x32;

/// Backend `3`: CloseComplete.
pub const CLOSE_COMPLETE: u8 = 0x33;

/// Backend `E`: ErrorResponse.
pub const ERROR_RESPONSE: u8 = 0x45;

/// Backend `N`: NoticeResponse, an ErrorResponse below error level.
pub const NOTICE_RESPONSE: u8 = 0x4e;

/// Backend `G`: CopyInResponse.
pub const COPY_IN_RESPONSE: u8 = 0x47;

/// Backend `H`: CopyOutResponse.
pub const COPY_OUT_RESPONSE: u8 = 0x48;

/// In an ErrorResponse, `S`: the severity follows.
pub const FIELD_SEVERITY: u8 = 0x53;

/// In an ErrorResponse, `C`: the SQLSTATE code follows.
pub const FIELD_CODE: u8 = 0x43;

/// In an ErrorResponse, `M`: the message follows.
pub const FIELD_MESSAGE: u8 = 0x4d;

/// In an ErrorResponse, `D`: the detail follows.
pub const FIELD_DETAIL: u8 = 0x44;

/// In an ErrorResponse, `H`: the hint follows.
pub const FIELD_HINT: u8 = 0x48;

/// In an ErrorResponse, `P`: the character position follows.
pub const FIELD_POSITION: u8 = 0x50;

/// In a ReadyForQuery, `I`: no transaction is open.
pub const STATUS_IDLE: u8 = 0x49;

/// In a ReadyForQuery, `T`: a transaction is open.
pub const STATUS_IN_TRANSACTION: u8 = 0x54;

/// In a ReadyForQuery, `E`: the open transaction has failed.
pub const STATUS_FAILED: u8 = 0x45;

} // verus!
