//! Trusted interface to the flattened-devicetree encoder of `vm_fdt`.
//!
//! The writer is treated as a collection of the calls made on it: each
//! successful call appends one token to `fdt_log`, and `finish` returns the
//! blob that `fdt_blob` names for that log. A token is a tuple
//! `(tag, name, text, cells)`; which fields are used depends on the tag.
use vstd::prelude::*;

verus! {

/// Token tag: a node was opened with the given name.
pub open spec fn tag_begin() -> int {
    0
}

/// Token tag: the innermost open node was closed.
pub open spec fn tag_end() -> int {
    1
}

/// Token tag: a string property (`name`, `text`).
pub open spec fn tag_string() -> int {
    2
}

/// Token tag: a property holding 32-bit cells (`name`, `cells`).
pub open spec fn tag_cells32() -> int {
    3
}

/// Token tag: a property holding 64-bit cells (`name`, `cells`).
pub open spec fn tag_cells64() -> int {
    4
}

/// One call recorded on a writer.
pub type FdtToken = (int, Seq<char>, Seq<char>, Seq<int>);

#[verifier::external_type_specification]
#[verifier::external_body]
pub struct ExFdtWriter(vm_fdt::FdtWriter);

#[verifier::external_type_specification]
#[verifier::external_body]
pub struct ExFdtWriterNode(vm_fdt::FdtWriterNode);

#[verifier::external_type_specification]
#[verifier::external_body]
pub struct ExFdtError(vm_fdt::Error);

/// The history of the calls that succeeded on a writer since it was made
/// by `FdtWriter::new`, in order. The writer itself keeps this history as
/// encoded bytes (its structure block and interned names); the tags record
/// which method made each entry. Nothing can show two writers equal, so the
/// name only ever stands for the writer it is applied to.
pub uninterp spec fn fdt_log(w: vm_fdt::FdtWriter) -> Seq<FdtToken>;

/// The depth that `FdtWriter::begin_node` recorded in a node handle: the
/// number of nodes open once that node was opened.
pub uninterp spec fn node_depth(n: vm_fdt::FdtWriterNode) -> int;

/// The devicetree blob that `FdtWriter::finish` emits after the given calls.
pub uninterp spec fn fdt_blob(log: Seq<FdtToken>) -> Seq<u8>;

pub open spec fn begin_token(name: Seq<char>) -> FdtToken {
    (tag_begin(), name, Seq::empty(), Seq::empty())
}

pub open spec fn end_token() -> FdtToken {
    (tag_end(), Seq::empty(), Seq::empty(), Seq::empty())
}

pub open spec fn string_token(name: Seq<char>, text: Seq<char>) -> FdtToken {
    (tag_string(), name, text, Seq::empty())
}

pub open spec fn cells32_token(name: Seq<char>, cells: Seq<u32>) -> FdtToken {
    (tag_cells32(), name, Seq::empty(), cells.map_values(|c: u32| c as int))
}

pub open spec fn cells64_token(name: Seq<char>, cells: Seq<u64>) -> FdtToken {
    (tag_cells64(), name, Seq::empty(), cells.map_values(|c: u64| c as int))
}

/// Nodes opened and not yet closed.
pub open spec fn open_depth(log: Seq<FdtToken>) -> int
    decreases log.len(),
{
    if log.len() == 0 {
        0
    } else {
        open_depth(log.drop_last()) + if log.last().0 == tag_begin() {
            1int
        } else if log.last().0 == tag_end() {
            -1int
        } else {
            0int
        }
    }
}

/// The last node call closed a node, after which no property may follow.
pub open spec fn node_ended(log: Seq<FdtToken>) -> bool
    decreases log.len(),
{
    if log.len() == 0 {
        false
    } else if log.last().0 == tag_end() {
        true
    } else if log.last().0 == tag_begin() {
        false
    } else {
        node_ended(log.drop_last())
    }
}

/// An upper bound on the bytes that one call adds to the blob, counting up
/// to four UTF-8 bytes per character and the padding to four bytes.
pub open spec fn token_size(t: FdtToken) -> int {
    (20 + 4 * (t.1.len() + t.2.len()) + 8 * t.3.len()) as int
}

/// An upper bound on the bytes that the calls add to the blob.
pub open spec fn log_size(log: Seq<FdtToken>) -> int
    decreases log.len(),
{
    if log.len() == 0 {
        0
    } else {
        log_size(log.drop_last()) + token_size(log.last())
    }
}

/// The blob after these calls, header and end marker included, stays
/// within the 32-bit sizes of the format.
pub open spec fn fits_u32(log: Seq<FdtToken>) -> bool {
    64 + log_size(log) <= u32::MAX
}

pub open spec fn ascii_letter(c: char) -> bool {
    (('a' as u32) <= (c as u32) <= ('z' as u32)) || (('A' as u32) <= (c as u32) <= ('Z' as u32))
}

pub open spec fn ascii_digit(c: char) -> bool {
    ('0' as u32) <= (c as u32) <= ('9' as u32)
}

/// A character that a node name may hold.
pub open spec fn node_name_char(c: char) -> bool {
    ascii_letter(c) || ascii_digit(c) || c == ',' || c == '.' || c == '_' || c == '+' || c == '-'
}

/// A node name without unit address that the writer accepts: 1 to 31
/// characters, starting with a letter.
pub open spec fn plain_node_name(n: Seq<char>) -> bool {
    1 <= n.len() <= 31 && ascii_letter(n[0]) && forall|i: int|
        0 <= i < n.len() ==> #[trigger] node_name_char(n[i])
}

/// A character that a property name may hold.
pub open spec fn property_name_char(c: char) -> bool {
    node_name_char(c) || c == '?' || c == '#'
}

/// A property name that the writer accepts: 1 to 31 such characters.
pub open spec fn property_name(n: Seq<char>) -> bool {
    1 <= n.len() <= 31 && forall|i: int| 0 <= i < n.len() ==> #[trigger] property_name_char(n[i])
}

/// A property may be written after these calls: a node is open and no node
/// was closed since the last one was opened.
pub open spec fn property_allowed(log: Seq<FdtToken>) -> bool {
    open_depth(log) > 0 && !node_ended(log)
}

/// One more call changes the depth, the closed-node flag and the size bound
/// by that call alone.
pub proof fn lemma_log_push(log: Seq<FdtToken>, t: FdtToken)
    ensures
        open_depth(log.push(t)) == open_depth(log) + if t.0 == tag_begin() {
            1int
        } else if t.0 == tag_end() {
            -1int
        } else {
            0int
        },
        node_ended(log.push(t)) == if t.0 == tag_end() {
            true
        } else if t.0 == tag_begin() {
            false
        } else {
            node_ended(log)
        },
        log_size(log.push(t)) == log_size(log) + token_size(t),
{
    assert(log.push(t).drop_last() =~= log);
}

/// Relies on `FdtWriter::new`: a fresh writer on which no call was made yet.
/// Without memory reservations it cannot fail.
#[verifier::external_body]
pub(crate) fn writer_new() -> (r: Result<vm_fdt::FdtWriter, vm_fdt::Error>)
    ensures
        r is Ok,
        r is Ok ==> fdt_log(r->Ok_0) == Seq::<FdtToken>::empty(),
{
    vm_fdt::FdtWriter::new()
}

/// Relies on `FdtWriter::begin_node`: on success one node is opened; on
/// failure it returns before touching the writer. It succeeds when fewer
/// than 64 nodes are open and the name is valid.
#[verifier::external_body]
pub(crate) fn begin_node(w: &mut vm_fdt::FdtWriter, name: &str) -> (r: Result<
    vm_fdt::FdtWriterNode,
    vm_fdt::Error,
>)
    ensures
        open_depth(fdt_log(*old(w))) < 64 && plain_node_name(name@) ==> r is Ok,
        r is Ok ==> fdt_log(*final(w)) == fdt_log(*old(w)).push(begin_token(name@)),
        r is Ok ==> node_depth(r->Ok_0) == open_depth(fdt_log(*old(w))) + 1,
        r is Err ==> fdt_log(*final(w)) == fdt_log(*old(w)),
{
    w.begin_node(name)
}

/// Relies on `FdtWriter::end_node`: on success the innermost node is closed;
/// on failure it returns before touching the writer. It succeeds when the
/// node handed back is the innermost open one.
#[verifier::external_body]
pub(crate) fn end_node(w: &mut vm_fdt::FdtWriter, node: vm_fdt::FdtWriterNode) -> (r: Result<
    (),
    vm_fdt::Error,
>)
    ensures
        node_depth(node) == open_depth(fdt_log(*old(w))) ==> r is Ok,
        r is Ok ==> fdt_log(*final(w)) == fdt_log(*old(w)).push(end_token()),
        r is Err ==> fdt_log(*final(w)) == fdt_log(*old(w)),
{
    w.end_node(node)
}

/// Relies on `FdtWriter::property_string`: on success one string property is
/// written; on failure it returns before touching the writer. It fails on a
/// value holding NUL, and succeeds where a property may be written, the name
/// is valid, the value holds no NUL and the sizes fit in 32 bits.
#[verifier::external_body]
pub(crate) fn property_string(w: &mut vm_fdt::FdtWriter, name: &str, text: &str) -> (r: Result<
    (),
    vm_fdt::Error,
>)
    ensures
        text@.contains('\0') ==> r is Err,
        property_allowed(fdt_log(*old(w))) && property_name(name@) && !text@.contains('\0')
            && fits_u32(fdt_log(*old(w)).push(string_token(name@, text@))) ==> r is Ok,
        r is Ok ==> fdt_log(*final(w)) == fdt_log(*old(w)).push(string_token(name@, text@)),
        r is Err ==> fdt_log(*final(w)) == fdt_log(*old(w)),
{
    w.property_string(name, text)
}

/// Relies on `FdtWriter::property_array_u32`: on success one property of
/// 32-bit cells is written; on failure it returns before touching the writer.
/// It succeeds where a property may be written, the name is valid and the
/// sizes fit in 32 bits.
#[verifier::external_body]
pub(crate) fn property_array_u32(w: &mut vm_fdt::FdtWriter, name: &str, cells: &[u32]) -> (r:
    Result<(), vm_fdt::Error>)
    ensures
        property_allowed(fdt_log(*old(w))) && property_name(name@) && fits_u32(
            fdt_log(*old(w)).push(cells32_token(name@, cells@)),
        ) ==> r is Ok,
        r is Ok ==> fdt_log(*final(w)) == fdt_log(*old(w)).push(cells32_token(name@, cells@)),
        r is Err ==> fdt_log(*final(w)) == fdt_log(*old(w)),
{
    w.property_array_u32(name, cells)
}

/// Relies on `FdtWriter::property_array_u64`: on success one property of
/// 64-bit cells is written; on failure it returns before touching the writer.
/// It succeeds where a property may be written, the name is valid and the
/// sizes fit in 32 bits.
#[verifier::external_body]
pub(crate) fn property_array_u64(w: &mut vm_fdt::FdtWriter, name: &str, cells: &[u64]) -> (r:
    Result<(), vm_fdt::Error>)
    ensures
        property_allowed(fdt_log(*old(w))) && property_name(name@) && fits_u32(
            fdt_log(*old(w)).push(cells64_token(name@, cells@)),
        ) ==> r is Ok,
        r is Ok ==> fdt_log(*final(w)) == fdt_log(*old(w)).push(cells64_token(name@, cells@)),
        r is Err ==> fdt_log(*final(w)) == fdt_log(*old(w)),
{
    w.property_array_u64(name, cells)
}

/// Relies on `FdtWriter::finish`: the emitted blob depends only on the calls
/// made on the writer. It succeeds when every node is closed and the total
/// size fits in 32 bits.
#[verifier::external_body]
pub(crate) fn finish(w: vm_fdt::FdtWriter) -> (r: Result<Vec<u8>, vm_fdt::Error>)
    ensures
        open_depth(fdt_log(w)) == 0 && fits_u32(fdt_log(w)) ==> r is Ok,
        r is Ok ==> r->Ok_0@ == fdt_blob(fdt_log(w)),
{
    w.finish()
}

} // verus!
