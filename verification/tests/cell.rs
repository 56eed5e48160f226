//! The root cell and its memory.

use rvm::cell::{
    init, root_cell, Cell, CellDesc, HvMemoryRegion, HvSystemConfig, Mapper, MemFlags,
    MemoryRegion, MemorySet, RootCellSlot, MEM_EXECUTE, MEM_NO_HUGEPAGES, MEM_READ, MEM_WRITE,
};
use rvm::error::{HvError, HvErrorNum};

fn config() -> HvSystemConfig {
    HvSystemConfig {
        hypervisor_memory: HvMemoryRegion {
            phys_start: 0x3a00_0000,
            virt_start: 0,
            size: 0x500_0000,
            flags: MemFlags { bits: MEM_READ | MEM_WRITE },
        },
        root_cell: CellDesc {
            mem_regions: vec![
                HvMemoryRegion {
                    phys_start: 0,
                    virt_start: 0,
                    size: 0x3a00_0000,
                    flags: MemFlags { bits: MEM_READ | MEM_WRITE | MEM_EXECUTE },
                },
                HvMemoryRegion {
                    phys_start: 0xfed0_0000,
                    virt_start: 0xfed1_0000,
                    size: 0x1000,
                    flags: MemFlags { bits: MEM_READ | MEM_WRITE },
                },
            ],
        },
    }
}

fn expected() -> Vec<MemoryRegion> {
    vec![
        MemoryRegion {
            start: 0x3a00_0000,
            size: 0x500_0000,
            flags: MemFlags { bits: MEM_READ | MEM_NO_HUGEPAGES },
            mapper: Mapper::Empty,
        },
        MemoryRegion {
            start: 0,
            size: 0x3a00_0000,
            flags: MemFlags { bits: MEM_READ | MEM_WRITE | MEM_EXECUTE },
            mapper: Mapper::Offset(0),
        },
        MemoryRegion {
            start: 0xfed1_0000,
            size: 0x1000,
            flags: MemFlags { bits: MEM_READ | MEM_WRITE },
            mapper: Mapper::Offset(0xfed0_0000),
        },
    ]
}

fn no_memory() -> HvError {
    HvError::new(HvErrorNum::ENOMEM, "no frame")
}

#[test]
fn regions_of_the_root_cell() {
    assert_eq!(Cell::root_regions(&config()), expected());
}

#[test]
fn hypervisor_is_seen_as_empty_pages() {
    let regions = Cell::root_regions(&config());
    assert_eq!(regions[0].mapper, Mapper::Empty);
    assert_eq!(regions[0].flags.bits & (MEM_WRITE | MEM_EXECUTE), 0);
    assert_eq!(regions[0].flags.bits & MEM_READ, MEM_READ);
}

#[test]
fn root_cell_has_the_configured_memory() {
    let config = config();
    let cell = Cell::new_root(&config, 0x7000, &vec![Ok(()), Ok(()), Ok(())]).unwrap();
    assert_eq!(*cell.gpm.regions(), expected());
    assert_eq!(cell.gpm.root_paddr(), 0x7000);
    assert_eq!(*cell.config.mem_regions(), config.root_cell.mem_regions);
}

#[test]
fn first_region_that_cannot_be_mapped_is_the_error() {
    let config = config();
    let other = HvError::new(HvErrorNum::EINVAL, "overlap");
    for mapped in [
        vec![Err(no_memory())],
        vec![Ok(()), Err(no_memory())],
        vec![Ok(()), Err(no_memory()), Err(other)],
        vec![Ok(()), Ok(()), Err(no_memory())],
    ] {
        assert_eq!(Cell::new_root(&config, 0x7000, &mapped).err(), Some(no_memory()));
    }
}

#[test]
fn memory_sets_keep_what_could_be_mapped() {
    let mut set = MemorySet::new(0x9000);
    let region = MemoryRegion::new_with_offset_mapper(0x1000, 0x2000, 0x3000, MemFlags { bits: 1 });
    assert_eq!(set.insert(region, Ok(())), Ok(()));
    assert_eq!(set.insert(region, Err(no_memory())), Err(no_memory()));
    assert_eq!(*set.regions(), vec![region]);
    assert_eq!(set.root_paddr(), 0x9000);
    assert_eq!(
        region,
        MemoryRegion {
            start: 0x1000,
            size: 0x3000,
            flags: MemFlags { bits: 1 },
            mapper: Mapper::Offset(0x2000),
        }
    );
    assert_eq!(
        MemoryRegion::new_with_empty_mapper(0x1000, 0x3000, MemFlags { bits: 1 }).mapper,
        Mapper::Empty
    );
}

#[test]
fn root_cell_is_made_once() {
    let first = config();
    let mut second = config();
    second.root_cell.mem_regions.pop();
    let mut slot = RootCellSlot::new();
    assert!(!slot.is_initialized());
    assert_eq!(init(&mut slot, Ok(()), &first, 0x7000, &vec![Ok(()), Ok(()), Ok(())]), Ok(()));
    assert!(slot.is_initialized());
    assert_eq!(*root_cell(&slot).gpm.regions(), expected());
    assert_eq!(init(&mut slot, Ok(()), &second, 0x8000, &vec![Ok(()), Ok(())]), Ok(()));
    assert_eq!(*root_cell(&slot).gpm.regions(), expected());
    assert_eq!(root_cell(&slot).gpm.root_paddr(), 0x7000);
}

#[test]
fn no_root_cell_without_the_processor_for_it() {
    let config = config();
    let missing = HvError::new(HvErrorNum::ENODEV, "CPU does not support required features!");
    let mut slot = RootCellSlot::new();
    assert_eq!(init(&mut slot, Err(missing), &config, 0x7000, &vec![]), Err(missing));
    assert!(!slot.is_initialized());
    assert_eq!(
        init(&mut slot, Ok(()), &config, 0x7000, &vec![Err(no_memory())]),
        Err(no_memory())
    );
    assert!(!slot.is_initialized());
}
