use vstd::prelude::*;

use crate::persistence::{LogRecordView, RequestLog};

verus! {

/// The one process-wide state object, created at startup and shared by every
/// front-end: the request counter and the request-log store it writes
/// through.  The counter equals the number of committed requests.
pub struct AppState {
    pub total_requests: u64,
    pub log: RequestLog,
}

impl AppState {
    pub fn new() -> (s: AppState)
        ensures
            s.total_requests == 0,
            s.log.view_seq() == Seq::<LogRecordView>::empty(),
    {
        AppState { total_requests: 0, log: RequestLog::new() }
    }
}

} // verus!
