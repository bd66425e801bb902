use wasm_runner::boot::{create_devicetree, create_devicetree_with_seed, BootError};

fn find(hay: &[u8], needle: &[u8]) -> Option<usize> {
    hay.windows(needle.len()).position(|w| w == needle)
}

fn reference_blob(cmdline: &str, pages: u32, seed: &[u64; 8]) -> Vec<u8> {
    let mut fdt = vm_fdt::FdtWriter::new().unwrap();
    let root = fdt.begin_node("root").unwrap();
    let chosen = fdt.begin_node("chosen").unwrap();
    fdt.property_array_u64("rng-seed", seed).unwrap();
    fdt.property_string("bootargs", cmdline).unwrap();
    fdt.end_node(chosen).unwrap();
    let aliases = fdt.begin_node("aliases").unwrap();
    fdt.end_node(aliases).unwrap();
    let memory = fdt.begin_node("memory").unwrap();
    fdt.property_string("device_type", "memory").unwrap();
    fdt.property_array_u32("reg", &[0, pages * 65536]).unwrap();
    fdt.end_node(memory).unwrap();
    fdt.end_node(root).unwrap();
    fdt.finish().unwrap()
}

#[test]
fn descriptor_matches_encoder_output() {
    let seed = [1u64, 2, 3, 4, 5, 6, 7, 8];
    let blob = match create_devicetree_with_seed("no_hash_pointers", 1024, &seed) {
        Ok(b) => b,
        Err(_) => panic!("descriptor should build"),
    };
    assert_eq!(blob, reference_blob("no_hash_pointers", 1024, &seed));
    assert_eq!(&blob[..4], &[0xd0, 0x0d, 0xfe, 0xed]);
}

#[test]
fn descriptor_rebuild_is_identical() {
    let seed = [9u64; 8];
    let a = create_devicetree_with_seed("console=hvc0", 16, &seed).ok().unwrap();
    let b = create_devicetree_with_seed("console=hvc0", 16, &seed).ok().unwrap();
    assert_eq!(a, b);
    let other = create_devicetree_with_seed("console=hvc0", 16, &[10u64; 8]).ok().unwrap();
    assert_ne!(a, other);
}

#[test]
fn descriptor_orders_seed_cmdline_memory() {
    let seed = [0x1122334455667788u64; 8];
    let blob = create_devicetree_with_seed("quiet", 2, &seed).ok().unwrap();
    let seed_at = find(&blob, &0x1122334455667788u64.to_be_bytes()).unwrap();
    let cmd_at = find(&blob, b"quiet\0").unwrap();
    let mem_at = find(&blob, b"memory\0").unwrap();
    assert!(seed_at < cmd_at);
    assert!(cmd_at < mem_at);
    let mut reg = Vec::new();
    reg.extend_from_slice(&0u32.to_be_bytes());
    reg.extend_from_slice(&(2u32 * 65536).to_be_bytes());
    assert!(find(&blob[mem_at..], &reg).is_some());
}

#[test]
fn descriptor_rejects_memory_beyond_32_bits() {
    assert!(matches!(
        create_devicetree_with_seed("", 65536, &[0u64; 8]),
        Err(BootError::MemoryTooLarge)
    ));
    assert!(create_devicetree_with_seed("", 65535, &[0u64; 8]).is_ok());
    assert!(matches!(create_devicetree("", 70000), Err(BootError::MemoryTooLarge)));
}

#[test]
fn descriptor_reports_encoder_refusal() {
    assert!(matches!(
        create_devicetree_with_seed("bad\0arg", 1, &[0u64; 8]),
        Err(BootError::Encoder(vm_fdt::Error::InvalidString))
    ));
}

#[test]
fn descriptor_with_random_seed_has_cmdline() {
    let blob = create_devicetree("no_hash_pointers", 4).ok().unwrap();
    assert!(find(&blob, b"no_hash_pointers\0").is_some());
}
