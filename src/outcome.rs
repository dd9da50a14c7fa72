//! What a finished transfer turns into: the response handed to the caller
//! and, when the body goes to a file, the write the caller performs.

use crate::config::RequestConfig;
use crate::error::RequestError;
use crate::response::{Response, Timing};
use vstd::prelude::*;

verus! {

/// What the transport captured from a transfer that completed.
#[derive(Debug, Clone)]
pub struct Captured {
    pub status_code: u32,
    pub headers: Vec<String>,
    pub body: Vec<u8>,
    /// The timing the transport measured, if it measures any.
    pub timing: Option<Timing>,
}

/// A body to be written to a file, whole, after the transfer succeeded.
#[derive(Debug, Clone)]
pub struct OutputWrite {
    pub path: String,
    pub bytes: Vec<u8>,
}

/// The result of a request, and the file write that goes with it.
#[derive(Debug)]
pub struct Conclusion {
    pub result: Result<Response, RequestError>,
    pub write: Option<OutputWrite>,
}

/// The timing reported to the caller: only when it was asked for and the
/// backend can measure the phases.
pub open spec fn reported_timing(show_timing: bool, supported: bool, measured: Option<Timing>) -> Option<Timing> {
    if show_timing && supported {
        measured
    } else {
        None
    }
}

/// Concludes a request from the outcome of its transfer. A failed transfer
/// is passed on and writes nothing; a completed one yields the response,
/// whose body moves to the output file when the descriptor names one.
pub fn conclude(config: &RequestConfig, transfer: Result<Captured, RequestError>, timing_supported: bool) -> (r:
    Conclusion)
    ensures
        match transfer {
            Err(e) => r.result == Err::<Response, RequestError>(e) && r.write is None,
            Ok(c) => r.result matches Ok(resp) && resp.status_code == c.status_code && resp.headers
                == c.headers && resp.timing == reported_timing(
                config.show_timing,
                timing_supported,
                c.timing,
            ) && match config.output {
                Some(p) => resp.body@.len() == 0 && (r.write matches Some(w) && w.path@ == p@
                    && w.bytes == c.body),
                None => resp.body == c.body && r.write is None,
            },
        },
{
    match transfer {
        Err(e) => Conclusion { result: Err(e), write: None },
        Ok(c) => {
            let timing = if config.show_timing && timing_supported {
                c.timing
            } else {
                None
            };
            match &config.output {
                Some(p) => {
                    let write = OutputWrite { path: p.clone(), bytes: c.body };
                    let resp = Response {
                        status_code: c.status_code,
                        headers: c.headers,
                        body: Vec::new(),
                        timing,
                    };
                    Conclusion { result: Ok(resp), write: Some(write) }
                },
                None => {
                    let resp = Response {
                        status_code: c.status_code,
                        headers: c.headers,
                        body: c.body,
                        timing,
                    };
                    Conclusion { result: Ok(resp), write: None }
                },
            }
        },
    }
}

/// No timing is reported when it was not asked for, nor by a backend that
/// cannot measure the phases of a transfer.
pub proof fn lemma_timing_only_when_measurable(show_timing: bool, supported: bool, measured: Option<Timing>)
    ensures
        !show_timing ==> reported_timing(show_timing, supported, measured) is None,
        !supported ==> reported_timing(show_timing, supported, measured) is None,
        show_timing && supported ==> reported_timing(show_timing, supported, measured) == measured,
{
}

} // verus!
