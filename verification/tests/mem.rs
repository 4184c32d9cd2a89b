use strings::mem::allocate;
use strings::mem::dealloc;
use strings::mem::format_bytes;
use strings::mem::get_memory_usage;
use strings::mem::init;
use strings::mem::realloc;
use strings::mem::tagged_allocation;
use strings::mem::total_allocation;
use strings::mem::Block;
use strings::mem::MemoryTag;

#[test]
fn test_alloc_dealloc() {
    let mut ledger = init();
    let size = 5;
    let tag = MemoryTag::Unknown;
    let allocation: Block<u32> = allocate::<u32>(&mut ledger, size, tag);
    println!("{}", get_memory_usage(&ledger));
    assert_eq!(
        total_allocation(&ledger),
        size as u128 * std::mem::size_of::<u32>() as u128
    );
    assert_eq!(
        tagged_allocation(&ledger, tag),
        size as u128 * std::mem::size_of::<u32>() as u128
    );

    dealloc(&mut ledger, allocation, tag);
    println!("{}", get_memory_usage(&ledger));
    assert_eq!(total_allocation(&ledger), 0);
    assert_eq!(tagged_allocation(&ledger, tag), 0);
}

#[test]
fn test_realloc() {
    let mut ledger = init();
    let mut allocation = allocate::<u32>(&mut ledger, 5, MemoryTag::Unknown);

    let new_size = 10;
    let tag = MemoryTag::Unknown;

    realloc(&mut ledger, &mut allocation, new_size, tag);

    assert_eq!(allocation.len(), new_size);
    assert_eq!(
        total_allocation(&ledger),
        new_size as u128 * std::mem::size_of::<u32>() as u128
    );
    assert_eq!(
        tagged_allocation(&ledger, tag),
        new_size as u128 * std::mem::size_of::<u32>() as u128
    );
}

#[test]
fn format_bytes_whole_and_fractional() {
    assert_eq!(format_bytes(0), "0 B");
    assert_eq!(format_bytes(1), "1 B");
    assert_eq!(format_bytes(1023), "1023 B");
    assert_eq!(format_bytes(1024), "1 KiB");
    assert_eq!(format_bytes(1536), "1.5 KiB");
    assert_eq!(format_bytes(1025), "1.0009765625 KiB");
    assert_eq!(format_bytes(1024 * 1024), "1 MiB");
    assert_eq!(format_bytes(5 * 1024 * 1024 * 1024 / 4), "1.25 GiB");
    assert_eq!(format_bytes(1u128 << 40), "1 TiB");
    assert_eq!(format_bytes(1u128 << 50), "1 PiB");
    assert_eq!(format_bytes(1u128 << 60), "1 EiB");
    assert_eq!(format_bytes(1u128 << 70), "1 ZiB");
    assert_eq!(format_bytes(1u128 << 80), "1 YiB");
    assert_eq!(format_bytes(3u128 << 79), "1.5 YiB");
    assert_eq!(format_bytes((1u128 << 80) - 1).starts_with("1023.9999"), true);
}

#[test]
fn realloc_keeps_common_slots() {
    let mut ledger = init();
    let mut block = allocate::<u64>(&mut ledger, 4, MemoryTag::Array);
    block.write(0, 11);
    block.write(3, 44);
    realloc(&mut ledger, &mut block, 8, MemoryTag::Array);
    assert_eq!(block.len(), 8);
    assert_eq!(block.get(0), Some(&11));
    assert_eq!(block.get(1), None);
    assert_eq!(block.get(3), Some(&44));
    assert_eq!(block.get(7), None);
    realloc(&mut ledger, &mut block, 2, MemoryTag::Array);
    assert_eq!(block.len(), 2);
    assert_eq!(block.get(0), Some(&11));
    assert_eq!(block.take(0), Some(11));
    assert_eq!(block.take(0), None);
    assert_eq!(tagged_allocation(&ledger, MemoryTag::Array), 16);
    assert_eq!(total_allocation(&ledger), 16);
    dealloc(&mut ledger, block, MemoryTag::Array);
    assert_eq!(total_allocation(&ledger), 0);
}

#[test]
fn usage_report_layout() {
    let mut ledger = init();
    let block = allocate::<u8>(&mut ledger, 1536, MemoryTag::Texture);
    let report = get_memory_usage(&ledger);
    let lines: Vec<&str> = report.lines().collect();
    assert_eq!(lines.len(), 20);
    assert_eq!(lines[0], "System mempory use (tagged):");
    assert_eq!(lines[1], "\t         Unknown: 0 B");
    assert_eq!(lines[6], "\tBinarySearchTree: 0 B");
    assert_eq!(lines[10], "\t         Texture: 1.5 KiB");
    assert_eq!(lines[17], "\t           Scene: 0 B");
    assert_eq!(lines[18], format!("\t{}", "-".repeat(37)));
    assert_eq!(lines[19], "\t           Total: 1.5 KiB");
    assert_eq!(report.ends_with('\n'), true);
    dealloc(&mut ledger, block, MemoryTag::Texture);
}

#[test]
fn tags_in_enumeration_order() {
    assert_eq!(MemoryTag::from_repr(0), Some(MemoryTag::Unknown));
    assert_eq!(MemoryTag::from_repr(3), Some(MemoryTag::Mapping));
    assert_eq!(MemoryTag::from_repr(16), Some(MemoryTag::Scene));
    assert_eq!(MemoryTag::from_repr(17), None);
    assert_eq!(MemoryTag::Mapping.name(), "Map");
    assert_eq!(MemoryTag::Vector.index(), 2);
    for i in 0..17 {
        assert_eq!(MemoryTag::from_repr(i).unwrap().index(), i);
    }
}
