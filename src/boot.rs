//! The boot descriptor: the devicetree handed to the guest at boot.
use rand::Rng;
use vstd::prelude::*;

use crate::fdt::{
    begin_node, begin_token, cells32_token, cells64_token, end_node, end_token, fdt_blob, finish,
    lemma_log_push, log_size, node_ended, open_depth, plain_node_name, property_array_u32,
    property_array_u64, property_name, property_string, string_token, tag_begin, tag_end,
    token_size, writer_new, FdtToken,
};
use crate::PAGE_SIZE;

verus! {

/// Number of 64-bit words in the entropy seed.
pub const SEED_WORDS: usize = 8;

/// Why a boot descriptor could not be built.
pub enum BootError {
    /// The memory size does not fit in a 32-bit `reg` cell.
    MemoryTooLarge,
    /// The devicetree encoder refused a node or property.
    Encoder(vm_fdt::Error),
}

/// Memory sizes that the 32-bit `reg` cell of the memory node can describe.
pub open spec fn memory_fits(pages: u32) -> bool {
    pages * PAGE_SIZE <= u32::MAX
}

/// The calls that describe a boot descriptor, in order: the entropy seed and
/// command line under `chosen`, an empty `aliases` node, and a memory node
/// with base 0 and length `pages * PAGE_SIZE`.
pub open spec fn boot_tree(cmdline: Seq<char>, pages: u32, seed: Seq<u64>) -> Seq<FdtToken> {
    seq![
        begin_token("root"@),
        begin_token("chosen"@),
        cells64_token("rng-seed"@, seed),
        string_token("bootargs"@, cmdline),
        end_token(),
        begin_token("aliases"@),
        end_token(),
        begin_token("memory"@),
        string_token("device_type"@, "memory"@),
        cells32_token("reg"@, seq![0u32, (pages * PAGE_SIZE) as u32]),
        end_token(),
        end_token(),
    ]
}

/// The encoded boot descriptor for the given command line, page count and seed.
pub open spec fn boot_blob(cmdline: Seq<char>, pages: u32, seed: Seq<u64>) -> Seq<u8> {
    fdt_blob(boot_tree(cmdline, pages, seed))
}

/// Relies on `rand::thread_rng` and `Rng::fill`: eight random words, of which
/// nothing is promised.
#[verifier::external_body]
fn random_seed() -> (r: [u64; 8]) {
    let mut seed = [0u64; 8];
    rand::thread_rng().fill(&mut seed);
    seed
}

fn encoder_error(e: vm_fdt::Error) -> (r: BootError)
    ensures
        r == BootError::Encoder(e),
{
    BootError::Encoder(e)
}

/// Command lines short enough for the 32-bit sizes of the encoded blob.
pub open spec fn cmdline_fits(cmdline: Seq<char>) -> bool {
    cmdline.len() <= 1_000_000_000
}

/// The first `k` calls of a log are the first `k - 1` followed by call `k`.
proof fn lemma_prefix(log: Seq<FdtToken>, k: int)
    requires
        1 <= k <= log.len(),
    ensures
        log.subrange(0, k) == log.subrange(0, k - 1).push(log[k - 1]),
        open_depth(log.subrange(0, k)) == open_depth(log.subrange(0, k - 1)) + if log[k - 1].0
            == tag_begin() {
            1int
        } else if log[k - 1].0 == tag_end() {
            -1int
        } else {
            0int
        },
        node_ended(log.subrange(0, k)) == if log[k - 1].0 == tag_end() {
            true
        } else if log[k - 1].0 == tag_begin() {
            false
        } else {
            node_ended(log.subrange(0, k - 1))
        },
        log_size(log.subrange(0, k)) == log_size(log.subrange(0, k - 1)) + token_size(log[k - 1]),
{
    assert(log.subrange(0, k) =~= log.subrange(0, k - 1).push(log[k - 1]));
    lemma_log_push(log.subrange(0, k - 1), log[k - 1]);
}

/// The node and property names of the boot descriptor are ones the writer
/// accepts.
proof fn lemma_names_valid()
    ensures
        plain_node_name("root"@),
        plain_node_name("chosen"@),
        plain_node_name("aliases"@),
        plain_node_name("memory"@),
        property_name("rng-seed"@),
        property_name("bootargs"@),
        property_name("device_type"@),
        property_name("reg"@),
        !"memory"@.contains('\0'),
{
    reveal_strlit("root");
    reveal_strlit("chosen");
    reveal_strlit("aliases");
    reveal_strlit("memory");
    reveal_strlit("rng-seed");
    reveal_strlit("bootargs");
    reveal_strlit("device_type");
    reveal_strlit("reg");
    assert("root"@ =~= seq!['r', 'o', 'o', 't']);
    assert("chosen"@ =~= seq!['c', 'h', 'o', 's', 'e', 'n']);
    assert("aliases"@ =~= seq!['a', 'l', 'i', 'a', 's', 'e', 's']);
    assert("memory"@ =~= seq!['m', 'e', 'm', 'o', 'r', 'y']);
    assert("rng-seed"@ =~= seq!['r', 'n', 'g', '-', 's', 'e', 'e', 'd']);
    assert("bootargs"@ =~= seq!['b', 'o', 'o', 't', 'a', 'r', 'g', 's']);
    assert("device_type"@ =~= seq!['d', 'e', 'v', 'i', 'c', 'e', '_', 't', 'y', 'p', 'e']);
    assert("reg"@ =~= seq!['r', 'e', 'g']);
}

/// Builds and encodes the boot descriptor with the given entropy seed.
///
/// Fails with `MemoryTooLarge` exactly when the memory size does not fit in
/// 32 bits, and fails when the command line holds a NUL character. Otherwise
/// it succeeds, and the bytes are the encoding of `boot_tree`, so equal
/// inputs give equal bytes.
pub fn create_devicetree_with_seed(cmdline: &str, memory_pages: u32, seed: &[u64; 8]) -> (r:
    Result<Vec<u8>, BootError>)
    ensures
        r matches Err(BootError::MemoryTooLarge) <==> !memory_fits(memory_pages),
        cmdline@.contains('\0') ==> r is Err,
        memory_fits(memory_pages) && cmdline_fits(cmdline@) && !cmdline@.contains('\0') ==> r is Ok,
        r is Ok ==> r->Ok_0@ == boot_blob(cmdline@, memory_pages, seed@),
{
    if memory_pages as u64 * PAGE_SIZE > u32::MAX as u64 {
        return Err(BootError::MemoryTooLarge);
    }
    proof {
        reveal_strlit("root");
        reveal_strlit("chosen");
        reveal_strlit("rng-seed");
        reveal_strlit("bootargs");
        reveal_strlit("aliases");
        reveal_strlit("memory");
        reveal_strlit("device_type");
        reveal_strlit("reg");
        lemma_names_valid();
    }
    let mem_len: u32 = (memory_pages as u64 * PAGE_SIZE) as u32;
    let reg: [u32; 2] = [0u32, mem_len];
    let mut fdt = match writer_new() {
        Ok(w) => w,
        Err(e) => return Err(encoder_error(e)),
    };
    let ghost tree = boot_tree(cmdline@, memory_pages, seed@);
    proof {
        assert(tree.subrange(0, 0) =~= Seq::<FdtToken>::empty());
        lemma_prefix(tree, 1);
        lemma_prefix(tree, 2);
        lemma_prefix(tree, 3);
        lemma_prefix(tree, 4);
        lemma_prefix(tree, 5);
        lemma_prefix(tree, 6);
        lemma_prefix(tree, 7);
        lemma_prefix(tree, 8);
        lemma_prefix(tree, 9);
        lemma_prefix(tree, 10);
        lemma_prefix(tree, 11);
        lemma_prefix(tree, 12);
        assert(tree.subrange(0, 12) =~= tree);
    }
    let root = match begin_node(&mut fdt, "root") {
        Ok(n) => n,
        Err(e) => return Err(encoder_error(e)),
    };
    let chosen = match begin_node(&mut fdt, "chosen") {
        Ok(n) => n,
        Err(e) => return Err(encoder_error(e)),
    };
    if let Err(e) = property_array_u64(&mut fdt, "rng-seed", seed.as_slice()) {
        return Err(encoder_error(e));
    }
    if let Err(e) = property_string(&mut fdt, "bootargs", cmdline) {
        return Err(encoder_error(e));
    }
    if let Err(e) = end_node(&mut fdt, chosen) {
        return Err(encoder_error(e));
    }
    let aliases = match begin_node(&mut fdt, "aliases") {
        Ok(n) => n,
        Err(e) => return Err(encoder_error(e)),
    };
    if let Err(e) = end_node(&mut fdt, aliases) {
        return Err(encoder_error(e));
    }
    let memory = match begin_node(&mut fdt, "memory") {
        Ok(n) => n,
        Err(e) => return Err(encoder_error(e)),
    };
    if let Err(e) = property_string(&mut fdt, "device_type", "memory") {
        return Err(encoder_error(e));
    }
    proof {
        assert(reg@ =~= seq![0u32, (memory_pages * PAGE_SIZE) as u32]);
    }
    if let Err(e) = property_array_u32(&mut fdt, "reg", reg.as_slice()) {
        return Err(encoder_error(e));
    }
    if let Err(e) = end_node(&mut fdt, memory) {
        return Err(encoder_error(e));
    }
    if let Err(e) = end_node(&mut fdt, root) {
        return Err(encoder_error(e));
    }
    match finish(fdt) {
        Ok(bytes) => Ok(bytes),
        Err(e) => Err(encoder_error(e)),
    }
}

/// Builds and encodes the boot descriptor with a freshly drawn entropy seed.
///
/// Fails with `MemoryTooLarge` exactly when the memory size does not fit in
/// 32 bits, and fails when the command line holds a NUL character. Otherwise
/// it succeeds, and the bytes encode `boot_tree` for some 8-word seed.
pub fn create_devicetree(cmdline: &str, memory_pages: u32) -> (r: Result<Vec<u8>, BootError>)
    ensures
        r matches Err(BootError::MemoryTooLarge) <==> !memory_fits(memory_pages),
        cmdline@.contains('\0') ==> r is Err,
        memory_fits(memory_pages) && cmdline_fits(cmdline@) && !cmdline@.contains('\0') ==> r is Ok,
        r is Ok ==> exists|seed: Seq<u64>|
            seed.len() == SEED_WORDS && r->Ok_0@ == #[trigger] boot_blob(
                cmdline@,
                memory_pages,
                seed,
            ),
{
    let seed = random_seed();
    create_devicetree_with_seed(cmdline, memory_pages, &seed)
}

/// The boot descriptor holds, in this order, the 8-word entropy seed, the
/// command line, and a memory node with base 0 and length `pages * PAGE_SIZE`.
pub proof fn lemma_boot_tree_layout(cmdline: Seq<char>, pages: u32, seed: Seq<u64>)
    requires
        seed.len() == SEED_WORDS,
        memory_fits(pages),
    ensures
        boot_tree(cmdline, pages, seed).len() == 12,
        boot_tree(cmdline, pages, seed)[2] == cells64_token("rng-seed"@, seed),
        boot_tree(cmdline, pages, seed)[2].3.len() == 8,
        boot_tree(cmdline, pages, seed)[3] == string_token("bootargs"@, cmdline),
        boot_tree(cmdline, pages, seed)[7] == begin_token("memory"@),
        boot_tree(cmdline, pages, seed)[9].1 == "reg"@,
        boot_tree(cmdline, pages, seed)[9].3 == seq![0int, pages * 65536],
{
    let reg = seq![0u32, (pages * PAGE_SIZE) as u32];
    assert(reg.map_values(|c: u32| c as int) =~= seq![0int, pages * 65536]);
}

/// Building the boot descriptor twice from the same command line, page count
/// and seed gives the same bytes.
pub proof fn lemma_rebuild_identical(
    cmdline1: Seq<char>,
    pages1: u32,
    seed1: Seq<u64>,
    cmdline2: Seq<char>,
    pages2: u32,
    seed2: Seq<u64>,
)
    requires
        cmdline1 == cmdline2,
        pages1 == pages2,
        seed1 == seed2,
    ensures
        boot_blob(cmdline1, pages1, seed1) == boot_blob(cmdline2, pages2, seed2),
{
}

} // verus!
