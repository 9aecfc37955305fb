use vstd::prelude::*;

use crate::error::Error;

verus! {

/// Relies on std::backtrace::Backtrace::capture, rendered as text: the call
/// stack at the point of the call, which depends on the build and the
/// environment, so nothing is promised of it.
#[verifier::external_body]
fn capture_backtrace() -> (r: String) {
    std::backtrace::Backtrace::capture().to_string()
}

/// Turns the runtime's status into a result: no status is success, a status
/// is a failure that carries the runtime's message and the current call
/// stack.
pub fn handle_status(status: Option<String>) -> (r: Result<(), Error>)
    ensures
        status is None <==> r is Ok,
        status matches Some(m) ==> (r matches Err(Error::XlaError { msg, .. }) && msg@ == m@),
{
    match status {
        None => Ok(()),
        Some(msg) => {
            let backtrace = capture_backtrace();
            Err(Error::XlaError { msg, backtrace })
        },
    }
}

/// Reads a count that the runtime reported together with a status: the count
/// when the status is success, else the status as an error.
pub fn checked_size(status: Option<String>, count: i32) -> (r: Result<usize, Error>)
    requires
        status is None ==> count >= 0,
    ensures
        status is None ==> r == Ok::<usize, Error>(count as usize),
        status matches Some(m) ==> (r matches Err(Error::XlaError { msg, .. }) && msg@ == m@),
{
    match handle_status(status) {
        Ok(()) => Ok(count as usize),
        Err(e) => Err(e),
    }
}

/// Takes ownership of every handle that a bulk fetch handed over, wrapping
/// each in order before the fetch's status is read, so that a failure never
/// leaves a handle without an owner. Returns the wrapped handles together with
/// the status as a result.
pub fn collect_fetched<H: Copy, W, F: Fn(H) -> W>(
    handles: &Vec<H>,
    wrap: F,
    status: Option<String>,
) -> (r: (Vec<W>, Result<(), Error>))
    requires
        forall|h: H| #[trigger] wrap.requires((h,)),
    ensures
        r.0.len() == handles.len(),
        forall|i: int| 0 <= i < handles.len() ==> wrap.ensures((handles[i],), #[trigger] r.0[i]),
        status is None <==> r.1 is Ok,
        status matches Some(m) ==> (r.1 matches Err(Error::XlaError { msg, .. }) && msg@ == m@),
{
    let mut out: Vec<W> = Vec::new();
    let mut i: usize = 0;
    while i < handles.len()
        invariant
            i <= handles.len(),
            out.len() == i,
            forall|h: H| #[trigger] wrap.requires((h,)),
            forall|j: int| 0 <= j < i ==> wrap.ensures((handles[j],), #[trigger] out[j]),
        decreases handles.len() - i,
    {
        let w = wrap(handles[i]);
        out.push(w);
        i = i + 1;
    }
    (out, handle_status(status))
}

} // verus!
