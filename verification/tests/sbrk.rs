use std::sync::Mutex;

use picolibc::host::{Host, Result};
use picolibc::io::Errno;
use picolibc::stubs::sbrk::{align_up, Brk, GRANULARITY, HEAP_START, MAX_MMAP};

const START: usize = HEAP_START as usize;

/// A host that maps exactly where it is asked, and records the sizes.
struct ContiguousHost {
    sizes: Mutex<Vec<usize>>,
}

impl ContiguousHost {
    fn new() -> Self {
        ContiguousHost { sizes: Mutex::new(Vec::new()) }
    }
}

impl Host for ContiguousHost {
    fn mmap(&self, addr: usize, size: usize) -> Result<usize> {
        self.sizes.lock().unwrap().push(size);
        Ok(addr)
    }
}

/// A host that always maps at a fixed address elsewhere.
struct ElsewhereHost {
    at: usize,
}

impl Host for ElsewhereHost {
    fn mmap(&self, _addr: usize, _size: usize) -> Result<usize> {
        Ok(self.at)
    }
}

/// A host that maps where asked, but never more than `limit` bytes.
struct LimitedHost {
    limit: usize,
    sizes: Mutex<Vec<usize>>,
}

impl Host for LimitedHost {
    fn mmap(&self, addr: usize, size: usize) -> Result<usize> {
        self.sizes.lock().unwrap().push(size);
        if size > self.limit {
            Err(Errno::ENOMEM)
        } else {
            Ok(addr)
        }
    }
}

/// A host that refuses every mapping with its own error.
struct DeniedHost;

impl Host for DeniedHost {
    fn mmap(&self, _addr: usize, _size: usize) -> Result<usize> {
        Err(Errno::EACCES)
    }
}

/// A host with no memory to give.
struct NoMemoryHost;

impl Host for NoMemoryHost {}

#[test]
fn new_break_starts_at_one_tib_with_nothing_mapped() {
    let b = Brk::new();
    assert_eq!(b.brk(), 1usize << 40);
    assert_eq!(b.brk_start(), START);
    assert_eq!(b.brk_end(), START);
    assert_eq!(b.min_increment(), GRANULARITY);
}

#[test]
fn align_up_rounds_to_the_alignment() {
    assert_eq!(align_up(0, GRANULARITY), 0);
    assert_eq!(align_up(1, GRANULARITY), 65536);
    assert_eq!(align_up(65536, GRANULARITY), 65536);
    assert_eq!(align_up(65537, GRANULARITY), 131072);
    assert_eq!(align_up(9, 8), 16);
    assert_eq!(align_up(16, 8), 16);
    assert_eq!(align_up(5, 4), 8);
    assert_eq!(align_up(7, 1), 7);
    assert_eq!(align_up(4097, 4096), 8192);
}

#[test]
fn zero_request_reports_the_break() {
    let mut b = Brk::new();
    assert_eq!(b.sbrk(&NoMemoryHost, 0), Ok(START));
    assert_eq!(b.brk(), START);
    assert_eq!(b.brk_end(), START);
}

#[test]
fn growth_without_memory_is_refused_and_changes_nothing() {
    let mut b = Brk::new();
    assert_eq!(b.sbrk(&NoMemoryHost, 16), Err(Errno::ENOMEM));
    assert_eq!(b.brk(), START);
    assert_eq!(b.brk_start(), START);
    assert_eq!(b.brk_end(), START);
}

#[test]
fn growth_maps_a_granule_and_doubles_the_step() {
    let host = ContiguousHost::new();
    let mut b = Brk::new();
    assert_eq!(b.sbrk(&host, 100), Ok(START));
    assert_eq!(b.brk(), START + 100);
    assert_eq!(b.brk_end(), START + 65536);
    assert_eq!(b.min_increment(), 2 * GRANULARITY);
    assert_eq!(*host.sizes.lock().unwrap(), vec![65536]);
}

#[test]
fn growth_that_fits_asks_the_host_for_nothing() {
    let host = ContiguousHost::new();
    let mut b = Brk::new();
    assert_eq!(b.sbrk(&host, 3), Ok(START));
    // 65528 bytes plus 5 bytes of padding for the chunk at START + 3 fit exactly.
    assert_eq!(b.sbrk(&host, 65528), Ok(START + 3));
    assert_eq!(b.brk(), START + 65531);
    assert_eq!(host.sizes.lock().unwrap().len(), 1);
}

#[test]
fn padding_is_counted_when_checking_capacity() {
    let host = ContiguousHost::new();
    let mut b = Brk::new();
    assert_eq!(b.sbrk(&host, 3), Ok(START));
    // 65529 bytes plus 5 bytes of padding do not fit: the region grows.
    assert_eq!(b.sbrk(&host, 65529), Ok(START + 3));
    assert_eq!(b.brk(), START + 65532);
    assert_eq!(b.brk_end(), START + 65536 + 131072);
    assert_eq!(*host.sizes.lock().unwrap(), vec![65536, 131072]);
}

#[test]
fn shrinking_undoes_growth() {
    let host = ContiguousHost::new();
    let mut b = Brk::new();
    let p = b.sbrk(&host, 4096).unwrap();
    assert_eq!(b.sbrk(&host, -4096), Ok(p + 4096));
    assert_eq!(b.brk(), p);
    assert_eq!(b.brk_end(), START + 65536);
}

#[test]
fn shrinking_past_the_region_is_refused() {
    let host = ContiguousHost::new();
    let mut b = Brk::new();
    b.sbrk(&host, 10).unwrap();
    assert_eq!(b.sbrk(&host, -11), Err(Errno::ENOMEM));
    assert_eq!(b.brk(), START + 10);
    assert_eq!(b.sbrk(&host, isize::MIN), Err(Errno::ENOMEM));
    assert_eq!(b.brk(), START + 10);
    assert_eq!(b.sbrk(&host, -10), Ok(START + 10));
    assert_eq!(b.brk(), START);
}

#[test]
fn a_mapping_elsewhere_starts_a_new_region() {
    let host = ElsewhereHost { at: 0x7000_0000_0000 };
    let mut b = Brk::new();
    assert_eq!(b.sbrk(&host, 10), Ok(0x7000_0000_0000));
    assert_eq!(b.brk_start(), 0x7000_0000_0000);
    assert_eq!(b.brk(), 0x7000_0000_000a);
    assert_eq!(b.brk_end(), 0x7000_0000_0000 + 65536);
}

#[test]
fn refused_growth_retries_with_smaller_steps() {
    let host = LimitedHost { limit: 65536, sizes: Mutex::new(Vec::new()) };
    let mut b = Brk::new();
    assert_eq!(b.sbrk(&host, 65536), Ok(START));
    assert_eq!(b.min_increment(), 131072);
    assert_eq!(b.sbrk(&host, 1), Ok(START + 65536));
    assert_eq!(*host.sizes.lock().unwrap(), vec![65536, 131072, 65536]);
    assert_eq!(b.brk_end(), START + 131072);
    assert_eq!(b.min_increment(), 131072);
}

#[test]
fn refused_growth_gives_up_at_the_request_size() {
    let host = LimitedHost { limit: 0, sizes: Mutex::new(Vec::new()) };
    let mut b = Brk::new();
    assert_eq!(b.sbrk(&host, 1), Err(Errno::ENOMEM));
    assert_eq!(*host.sizes.lock().unwrap(), vec![65536]);
    assert_eq!(b.brk(), START);
    assert_eq!(b.min_increment(), GRANULARITY);
}

#[test]
fn step_never_exceeds_max_mmap() {
    let host = ContiguousHost::new();
    let mut b = Brk::new();
    for _ in 0..12 {
        let need = b.brk_end() - b.brk() + 1;
        b.sbrk(&host, need as isize).unwrap();
    }
    assert_eq!(b.min_increment(), MAX_MMAP);
}

#[test]
fn record_mapping_extends_or_moves_the_region() {
    let mut b = Brk::new();
    b.record_mapping(START, 65536);
    assert_eq!(b.brk_end(), START + 65536);
    assert_eq!(b.brk(), START);
    b.record_mapping(0x1000, 4096);
    assert_eq!(b.brk(), 0x1000);
    assert_eq!(b.brk_start(), 0x1000);
    assert_eq!(b.brk_end(), 0x2000);
    assert_eq!(b.min_increment(), 4 * GRANULARITY);
}

#[test]
fn refused_growth_answers_the_hosts_error() {
    let mut b = Brk::new();
    assert_eq!(b.sbrk(&DeniedHost, 100), Err(Errno::EACCES));
    assert_eq!(b.brk(), START);
    assert_eq!(b.brk_start(), START);
    assert_eq!(b.brk_end(), START);
    assert_eq!(b.min_increment(), GRANULARITY);
}

#[test]
fn handed_out_memory_lies_in_the_hosts_mapping() {
    let host = ElsewhereHost { at: 0x5000_0000 };
    let mut b = Brk::new();
    let p = b.sbrk(&host, 1000).unwrap();
    assert_eq!(p, 0x5000_0000);
    assert!(b.brk_start() <= p && p + 1000 <= b.brk_end());
    assert_eq!(b.brk_end() - b.brk_start(), 65536);
}

#[test]
fn ensure_capacity_accepts_requests_up_to_the_rounding_limit() {
    let mut b = Brk::new();
    assert_eq!(b.ensure_capacity(&NoMemoryHost, usize::MAX - 65535), Err(Errno::ENOMEM));
    assert_eq!(b.ensure_capacity(&NoMemoryHost, 0), Ok(()));
    assert_eq!(b.brk_end(), START);
}
