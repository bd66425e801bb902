//! The guest-facing host calls, reduced to what they decide: which bytes of
//! the shared region a call may touch, and what it writes there.
use vstd::prelude::*;

verus! {

/// A host call named a range that does not lie inside the shared region.
#[derive(PartialEq, Eq, Structural, Debug, Clone, Copy)]
pub enum HostError {
    OutOfBounds,
}

/// The half-open byte range `start..end` of the shared region.
#[derive(PartialEq, Eq, Structural, Debug, Clone, Copy)]
pub struct Span {
    pub start: usize,
    pub end: usize,
}

/// Bytes to be stored into the shared region from offset `start` on.
pub struct Patch {
    pub start: usize,
    pub bytes: Vec<u8>,
}

/// `len` bytes at `ptr` lie inside a region of `region_len` bytes.
pub open spec fn in_region(region_len: int, ptr: int, len: int) -> bool {
    ptr + len <= region_len
}

pub open spec fn min(a: int, b: int) -> int {
    if a <= b {
        a
    } else {
        b
    }
}

/// The value that `return_address` reports whatever it is asked.
pub const NO_RETURN_ADDRESS: i32 = -1;

/// The range of `len` bytes at `ptr`, or `OutOfBounds` when it leaves the
/// region.
pub fn checked_span(region_len: usize, ptr: u32, len: u32) -> (r: Result<Span, HostError>)
    ensures
        r is Ok <==> in_region(region_len as int, ptr as int, len as int),
        r is Ok ==> r->Ok_0.start == ptr && r->Ok_0.end == ptr + len,
        r is Err ==> r == Err::<Span, HostError>(HostError::OutOfBounds),
{
    if ptr as u64 + len as u64 <= region_len as u64 {
        Ok(Span { start: ptr as usize, end: (ptr as u64 + len as u64) as usize })
    } else {
        Err(HostError::OutOfBounds)
    }
}

/// The first `min(len, src.len())` bytes of `src`, to be stored at `ptr`;
/// `OutOfBounds` when they would not fit in the region.
pub fn clamped_patch(region_len: usize, src: &Vec<u8>, ptr: u32, len: u32) -> (r: Result<
    Patch,
    HostError,
>)
    ensures
        r is Ok <==> in_region(region_len as int, ptr as int, min(len as int, src.len() as int)),
        r is Ok ==> r->Ok_0.start == ptr && r->Ok_0.bytes@ == src@.subrange(
            0,
            min(len as int, src.len() as int),
        ),
        r is Err ==> r matches Err(HostError::OutOfBounds),
{
    let n: usize = if (len as u64) < (src.len() as u64) {
        len as usize
    } else {
        src.len()
    };
    if ptr as u64 + n as u64 > region_len as u64 {
        return Err(HostError::OutOfBounds);
    }
    let mut bytes: Vec<u8> = Vec::with_capacity(n);
    let mut i: usize = 0;
    while i < n
        invariant
            n <= src.len(),
            i <= n,
            bytes@ == src@.subrange(0, i as int),
        decreases n - i,
    {
        bytes.push(src[i]);
        i = i + 1;
        assert(bytes@ =~= src@.subrange(0, i as int));
    }
    Ok(Patch { start: ptr as usize, bytes })
}

/// `boot_console_write(msg, len)`: the range of the region that goes to the
/// console. A range that leaves the region is refused, never cut short.
pub fn boot_console_write(region_len: usize, msg: u32, len: u32) -> (r: Result<Span, HostError>)
    ensures
        r is Ok <==> in_region(region_len as int, msg as int, len as int),
        r is Ok ==> r->Ok_0.start == msg && r->Ok_0.end == msg + len,
        r is Err ==> r == Err::<Span, HostError>(HostError::OutOfBounds),
{
    checked_span(region_len, msg, len)
}

/// `get_dt(buf, len)`: the first `min(len, devicetree.len())` bytes of the
/// boot descriptor, to be stored at `buf`.
pub fn get_dt(region_len: usize, devicetree: &Vec<u8>, buf: u32, len: u32) -> (r: Result<
    Patch,
    HostError,
>)
    ensures
        r is Ok <==> in_region(
            region_len as int,
            buf as int,
            min(len as int, devicetree.len() as int),
        ),
        r is Ok ==> r->Ok_0.start == buf && r->Ok_0.bytes@ == devicetree@.subrange(
            0,
            min(len as int, devicetree.len() as int),
        ),
        r is Err ==> r matches Err(HostError::OutOfBounds),
{
    clamped_patch(region_len, devicetree, buf, len)
}

/// Relies on `std::backtrace::Backtrace::force_capture` and its `Display`
/// impl: a textual call-stack snapshot, of which nothing is promised.
#[verifier::external_body]
fn capture_backtrace() -> (r: Vec<u8>) {
    std::backtrace::Backtrace::force_capture().to_string().into_bytes()
}

/// `get_stacktrace(buf, len)` once the snapshot is taken: its first
/// `min(len, trace.len())` bytes, to be stored at `buf`.
pub fn stacktrace_patch(region_len: usize, trace: &Vec<u8>, buf: u32, len: u32) -> (r: Result<
    Patch,
    HostError,
>)
    ensures
        r is Ok <==> in_region(region_len as int, buf as int, min(len as int, trace.len() as int)),
        r is Ok ==> r->Ok_0.start == buf && r->Ok_0.bytes@ == trace@.subrange(
            0,
            min(len as int, trace.len() as int),
        ),
        r is Err ==> r matches Err(HostError::OutOfBounds),
{
    clamped_patch(region_len, trace, buf, len)
}

/// `get_stacktrace(buf, len)`: takes a snapshot of the host call stack and
/// returns at most `len` bytes of it, to be stored at `buf`. It succeeds
/// whenever the `len` bytes at `buf` lie inside the region.
pub fn get_stacktrace(region_len: usize, buf: u32, len: u32) -> (r: Result<Patch, HostError>)
    ensures
        in_region(region_len as int, buf as int, len as int) ==> r is Ok,
        r is Ok ==> r->Ok_0.start == buf && r->Ok_0.bytes.len() <= len && in_region(
            region_len as int,
            buf as int,
            r->Ok_0.bytes.len() as int,
        ),
        r is Err ==> r matches Err(HostError::OutOfBounds),
{
    let trace = capture_backtrace();
    stacktrace_patch(region_len, &trace, buf, len)
}

/// `return_address(frames)`: unsupported, so always the sentinel.
pub fn return_address(frames: i32) -> (r: i32)
    ensures
        r == NO_RETURN_ADDRESS,
{
    NO_RETURN_ADDRESS
}

/// `new_worker(task, comm, comm_len)`: the range of the region that holds
/// the new worker's name.
pub fn worker_name_span(region_len: usize, comm: u32, comm_len: u32) -> (r: Result<
    Span,
    HostError,
>)
    ensures
        r is Ok <==> in_region(region_len as int, comm as int, comm_len as int),
        r is Ok ==> r->Ok_0.start == comm && r->Ok_0.end == comm + comm_len,
        r is Err ==> r == Err::<Span, HostError>(HostError::OutOfBounds),
{
    checked_span(region_len, comm, comm_len)
}

} // verus!
