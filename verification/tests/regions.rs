use mmio::Capability;
use mmio::Flags;
use mmio::MapRequest;
use mmio::MemoryMap;
use mmio::PageSize;
use mmio::UnmapRequest;

fn flags() -> Flags {
    Flags { read: 1, write: 2, shared: 16, anonymous: 32, read_write: 64, sync: 128 }
}

fn paged(bytes: i64) -> Capability {
    Capability::Available { page: PageSize::new(bytes).unwrap(), flags: flags() }
}

#[test]
fn capability_follows_the_page_size() {
    match Capability::with_page_size(4096) {
        Capability::Available { page, flags } => {
            assert_eq!(page.bytes(), 4096);
            assert_eq!(flags.read, libc::PROT_READ);
            assert_eq!(flags.write, libc::PROT_WRITE);
            assert_eq!(flags.shared, libc::MAP_SHARED);
            assert_eq!(flags.anonymous, libc::MAP_ANON);
            assert_eq!(flags.read_write, libc::O_RDWR);
            assert_eq!(flags.sync, libc::O_SYNC);
        }
        Capability::Unavailable => panic!("a page of 4096 bytes is usable"),
    }
    assert!(matches!(Capability::with_page_size(-1), Capability::Unavailable));
    assert!(matches!(Capability::with_page_size(0), Capability::Unavailable));
    assert!(matches!(Capability::with_page_size(4000), Capability::Unavailable));
}

#[test]
fn open_file_raw_plans_the_window() {
    let request = MemoryMap::<u32>::open_file_raw(&paged(4096), 4100, 7, 3, 17).unwrap();
    assert_eq!(
        request,
        MapRequest {
            length: 4,
            protection: 3,
            flags: 17,
            descriptor: 7,
            offset: 4096,
            delta: 4,
            close_descriptor: false,
        }
    );
}

#[test]
fn open_file_raw_passes_flags_through() {
    let request =
        MemoryMap::<u8>::open_file_raw(&paged(4096), 0, -5, i32::MIN, i32::MAX).unwrap();
    assert_eq!(request.protection, i32::MIN);
    assert_eq!(request.flags, i32::MAX);
    assert_eq!(request.descriptor, -5);
    assert_eq!(request.length, 1);
}

#[test]
fn open_file_raw_asks_for_the_size_of_the_value() {
    let cap = paged(4096);
    assert_eq!(MemoryMap::<u64>::open_file_raw(&cap, 0, 3, 3, 1).unwrap().length, 8);
    assert_eq!(MemoryMap::<[u8; 5000]>::open_file_raw(&cap, 0, 3, 3, 1).unwrap().length, 5000);
    assert_eq!(MemoryMap::<()>::open_file_raw(&cap, 0, 3, 3, 1).unwrap().length, 0);
}

#[test]
fn open_file_raw_keeps_offsets_beyond_four_gigabytes() {
    let request =
        MemoryMap::<u32>::open_file_raw(&paged(4096), 0x12_3456_7abc, 3, 3, 1).unwrap();
    assert_eq!(request.offset, 0x12_3456_7000);
    assert_eq!(request.delta, 0xabc);
}

#[test]
fn open_file_raw_with_a_negative_offset() {
    let request = MemoryMap::<u32>::open_file_raw(&paged(4096), -10, 3, 3, 1).unwrap();
    assert_eq!(request.offset, -4096);
    assert_eq!(request.delta, 4086);
}

#[test]
fn nothing_is_planned_without_the_capability() {
    let cap = Capability::Unavailable;
    assert!(MemoryMap::<u32>::open_file_raw(&cap, 0, 3, 3, 1).is_none());
    assert!(MemoryMap::<u32>::anonymous(&cap).is_none());
    assert!(MemoryMap::<u32>::dev_mem_open(&cap).is_none());
    assert!(MemoryMap::<u32>::dev_mem(&cap, 0, 3).is_none());
}

#[test]
fn anonymous_is_shared_and_has_no_file() {
    let request = MemoryMap::<u64>::anonymous(&paged(4096)).unwrap();
    assert_eq!(
        request,
        MapRequest {
            length: 8,
            protection: 1 | 2,
            flags: 32 | 16,
            descriptor: -1,
            offset: 0,
            delta: 0,
            close_descriptor: false,
        }
    );
}

#[test]
fn anonymous_on_the_host() {
    let request = MemoryMap::<u16>::anonymous(&Capability::with_page_size(4096)).unwrap();
    assert_eq!(request.protection, libc::PROT_READ | libc::PROT_WRITE);
    assert_eq!(request.flags, libc::MAP_ANON | libc::MAP_SHARED);
    assert_eq!(request.descriptor, -1);
    assert_eq!(request.offset, 0);
    assert_eq!(request.length, 2);
}

#[test]
fn dev_mem_opens_the_device_first() {
    let open = MemoryMap::<u32>::dev_mem_open(&paged(4096)).unwrap();
    assert_eq!(&open.path, b"/dev/mem\0");
    assert_eq!(open.flags, 64 | 128);
    let host = MemoryMap::<u32>::dev_mem_open(&Capability::with_page_size(4096)).unwrap();
    assert_eq!(host.flags, libc::O_RDWR | libc::O_SYNC);
}

#[test]
fn dev_mem_gives_up_when_the_device_did_not_open() {
    assert!(MemoryMap::<u32>::dev_mem(&paged(4096), 0x3f20_0000, -1).is_none());
}

#[test]
fn dev_mem_maps_shared_and_closes_the_descriptor() {
    let request = MemoryMap::<u32>::dev_mem(&paged(4096), 0x3f20_0034, 9).unwrap();
    assert_eq!(
        request,
        MapRequest {
            length: 4,
            protection: 1 | 2,
            flags: 16,
            descriptor: 9,
            offset: 0x3f20_0000,
            delta: 0x34,
            close_descriptor: true,
        }
    );
}

#[test]
fn dev_mem_takes_every_descriptor_but_the_failure() {
    assert!(MemoryMap::<u32>::dev_mem(&paged(4096), 0, 0).is_some());
    assert!(MemoryMap::<u32>::dev_mem(&paged(4096), 0, -2).is_some());
    assert!(MemoryMap::<u32>::dev_mem(&paged(4096), 0, i32::MAX).is_some());
}

#[test]
fn complete_after_a_failed_mapping() {
    let request = MemoryMap::<u32>::open_file_raw(&paged(4096), 4100, -1, 0, 0).unwrap();
    assert!(MemoryMap::<u32>::complete(&request, usize::MAX).is_none());
    assert!(MemoryMap::<u32>::complete(&request, libc::MAP_FAILED as usize).is_none());
}

#[test]
fn complete_points_at_the_offset() {
    let request = MemoryMap::<u32>::open_file_raw(&paged(4096), 4100, 3, 3, 1).unwrap();
    let region = MemoryMap::<u32>::complete(&request, 0x7f00_0000_2000).unwrap();
    assert_eq!(region.address(), 0x7f00_0000_2004);
}

#[test]
fn complete_without_room_for_the_value() {
    let request = MemoryMap::<u32>::open_file_raw(&paged(4096), 4095, 3, 3, 1).unwrap();
    assert!(MemoryMap::<u32>::complete(&request, usize::MAX - 1).is_none());
    assert!(MemoryMap::<u32>::complete(&request, usize::MAX - 4094).is_none());
    let last = MemoryMap::<u32>::complete(&request, usize::MAX - 4095).unwrap();
    assert_eq!(last.address(), usize::MAX);
}

#[test]
fn regions_one_page_apart() {
    let cap = paged(4096);
    let page = PageSize::new(4096).unwrap();
    let k: i64 = 3 * 4096 + 100;
    let first = MemoryMap::<u32>::open_file_raw(&cap, k, 3, 3, 1).unwrap();
    let second = MemoryMap::<u32>::open_file_raw(&cap, k + 4096, 3, 3, 1).unwrap();
    assert_eq!(second.offset - first.offset, 4096);
    assert_eq!(first.delta, 100);
    assert_eq!(second.delta, 100);

    let mut a = MemoryMap::<u32>::complete(&first, 0x5000_0000).unwrap();
    let mut b = MemoryMap::<u32>::complete(&second, 0x5000_1000).unwrap();
    assert_eq!(a.address() % 4096, 100);
    assert_eq!(b.address() % 4096, 100);
    let gone_a = a.release(&page).unwrap();
    let gone_b = b.release(&page).unwrap();
    assert_eq!(gone_a, UnmapRequest { base: 0x5000_0000, length: 4 });
    assert_eq!(gone_b, UnmapRequest { base: 0x5000_1000, length: 4 });
    assert_eq!(gone_b.base - gone_a.base, 4096);
}

#[test]
fn release_keeps_the_high_bits_of_the_address() {
    let page = PageSize::new(4096).unwrap();
    let request = MemoryMap::<u64>::open_file_raw(&paged(4096), 24, 3, 3, 1).unwrap();
    let mut region = MemoryMap::<u64>::complete(&request, 0x7fff_f7a0_3000).unwrap();
    assert_eq!(
        region.release(&page),
        Some(UnmapRequest { base: 0x7fff_f7a0_3000, length: 8 })
    );
}

#[test]
fn release_happens_once() {
    let page = PageSize::new(4096).unwrap();
    let request = MemoryMap::<u32>::anonymous(&paged(4096)).unwrap();
    let mut region = MemoryMap::<u32>::complete(&request, 0x1000).unwrap();
    assert!(region.release(&page).is_some());
    assert_eq!(region.address(), 0);
    assert!(region.release(&page).is_none());
    assert_eq!(region.address(), 0);
    assert!(region.release(&page).is_none());
}

#[test]
fn release_of_a_region_without_a_mapping() {
    let page = PageSize::new(4096).unwrap();
    let request = MemoryMap::<u32>::anonymous(&paged(4096)).unwrap();
    let mut region = MemoryMap::<u32>::complete(&request, 0).unwrap();
    assert_eq!(region.address(), 0);
    assert!(region.release(&page).is_none());
    assert_eq!(region.address(), 0);
}

#[test]
fn release_goes_by_the_page_size_given() {
    let request = MemoryMap::<u32>::open_file_raw(&paged(4096), 5000, 3, 3, 1).unwrap();
    let mut region = MemoryMap::<u32>::complete(&request, 0x10000).unwrap();
    assert_eq!(region.address(), 0x10000 + 904);
    let large = PageSize::new(65536).unwrap();
    assert_eq!(region.release(&large), Some(UnmapRequest { base: 0x10000, length: 4 }));
}

#[test]
fn borrowed_view_has_the_address_of_the_region() {
    let request = MemoryMap::<u32>::open_file_raw(&paged(4096), 12, 3, 3, 1).unwrap();
    let mut region = MemoryMap::<u32>::complete(&request, 0x4000).unwrap();
    let address = region.address();
    let view = region.as_ref();
    assert_eq!(view.ptr, 0x400c);
    assert_eq!(view.ptr, address);
    assert_eq!(region.address(), 0x400c);
}

#[test]
fn read_and_write_stores_what_the_callback_returns() {
    let request = MemoryMap::<u32>::anonymous(&paged(4096)).unwrap();
    let mut region = MemoryMap::<u32>::complete(&request, 0x4000).unwrap();
    assert_eq!(region.read_and_write(5, |value| value + 1), 6);
    assert_eq!(region.read_and_write(0xffff_0000, |value| value | 0xff), 0xffff_00ff);
    assert_eq!(region.read_and_write(7, |_| 0), 0);
    assert_eq!(region.address(), 0x4000);
}
