use vstd::prelude::*;

use crate::host::{Host, Result};
use crate::io::Errno;

verus! {

/// Whether `n` is a power of two.
pub open spec fn is_power_of_two(n: int) -> bool
    decreases n,
{
    if n <= 0 {
        false
    } else if n == 1 {
        true
    } else {
        n % 2 == 0 && is_power_of_two(n / 2)
    }
}

/// Whether `p` is the smallest power of two that is at least `x`.
pub open spec fn is_next_power_of_two(x: int, p: int) -> bool {
    &&& is_power_of_two(p)
    &&& p >= x
    &&& p == 1 || p / 2 < x
}

/// The smallest power of two that is at least `x`, as
/// `usize::next_power_of_two` gives it.
fn next_power_of_two(x: usize) -> (r: usize)
    requires
        x <= usize::MAX / 2 + 1,
    ensures
        is_next_power_of_two(x as int, r as int),
{
    let mut p: usize = 1;
    while p < x
        invariant
            is_power_of_two(p as int),
            p == 1 || p / 2 < x,
            x <= usize::MAX / 2 + 1,
        decreases usize::MAX - p,
    {
        assert((2 * p) as int / 2 == p);
        assert(is_power_of_two(2 * p as int));
        p = 2 * p;
    }
    p
}

/// `core::mem::size_of::<usize>()`, the size of an address.
pub open spec fn address_size() -> int {
    vstd::layout::size_of::<usize>() as int
}

/// The alignment and size of the block that holds one thread's copy of a
/// thread-local object of `size` bytes aligned to `align`: the alignment is
/// the smallest power of two that is at least `align` and at least the size
/// of an address, and the block has at least one byte.
pub fn object_layout(size: usize, align: usize) -> (r: (usize, usize))
    requires
        align <= usize::MAX / 2 + 1,
        address_size() <= usize::MAX / 2 + 1,
    ensures
        is_next_power_of_two(
            if align >= address_size() { align as int } else { address_size() },
            r.0 as int,
        ),
        r.1 == if size >= 1 { size } else { 1 },
{
    let word = core::mem::size_of::<usize>();
    let at_least = if align >= word {
        align
    } else {
        word
    };
    let alignment = next_power_of_two(at_least);
    let total = if size >= 1 {
        size
    } else {
        1
    };
    (alignment, total)
}

/// The addresses of the thread-local objects created so far, by thread and
/// by the variable's control index.
#[verifier::external_body]
pub struct TlsAddressArray {
    address_array: hashbrown::HashMap<(usize, usize), usize>,
}

/// What a `TlsAddressArray` holds: for each thread and variable that has an
/// object, the object's address.
pub uninterp spec fn address_map(a: TlsAddressArray) -> Map<(usize, usize), usize>;

/// `hashbrown::HashMap::new`: a map that holds nothing.
#[verifier::external_body]
fn address_array_new() -> (a: TlsAddressArray)
    ensures
        address_map(a).dom().is_empty(),
{
    TlsAddressArray { address_array: hashbrown::HashMap::new() }
}

/// `hashbrown::HashMap::get`: the address that the map holds for `key`.
#[verifier::external_body]
fn address_array_get(a: &TlsAddressArray, key: (usize, usize)) -> (r: Option<usize>)
    ensures
        r == (if address_map(*a).contains_key(key) {
            Some(address_map(*a)[key])
        } else {
            None::<usize>
        }),
{
    a.address_array.get(&key).copied()
}

/// `hashbrown::HashMap::insert`: the map afterwards holds `addr` for `key`
/// and is unchanged for every other key.
#[verifier::external_body]
fn address_array_insert(a: &mut TlsAddressArray, key: (usize, usize), addr: usize)
    ensures
        address_map(*final(a)) == address_map(*old(a)).insert(key, addr),
{
    a.address_array.insert(key, addr);
}

impl TlsAddressArray {
    /// An array with no objects in it.
    pub fn new() -> (r: Self)
        ensures
            address_map(r).dom().is_empty(),
    {
        address_array_new()
    }

    /// The address of the object of the variable with control index `key`
    /// for thread `thread`; the first time a thread asks for a variable,
    /// `or_else` creates the object, and its address is kept for every later
    /// request of that thread.
    pub fn get_or_insert_with<F: FnOnce() -> usize>(
        &mut self,
        thread: usize,
        key: usize,
        or_else: F,
    ) -> (r: usize)
        requires
            !address_map(*old(self)).contains_key((thread, key)) ==> or_else.requires(()),
        ensures
            address_map(*old(self)).contains_key((thread, key)) ==> r == address_map(
                *old(self),
            )[(thread, key)] && address_map(*final(self)) == address_map(*old(self)),
            !address_map(*old(self)).contains_key((thread, key)) ==> or_else.ensures((), r)
                && address_map(*final(self)) == address_map(*old(self)).insert((thread, key), r),
    {
        match address_array_get(self, (thread, key)) {
            Some(addr) => addr,
            None => {
                let addr = or_else();
                address_array_insert(self, (thread, key), addr);
                addr
            },
        }
    }

    /// The address of the calling thread's object of the variable with
    /// control index `key`: the thread is the one the host reports, and its
    /// object is created by `allocate` on its first request. A host that
    /// cannot name the calling thread cannot hold thread-local objects: its
    /// error is answered and nothing changes.
    pub fn get<H: Host + ?Sized, F: FnOnce() -> usize>(
        &mut self,
        host: &H,
        key: usize,
        allocate: F,
    ) -> (r: Result<usize>)
        requires
            allocate.requires(()),
        ensures
            exists|a: Result<usize>| #[trigger]
                call_ensures(H::thread_id, (host,), a) && match a {
                    Err(e) => r == Err::<usize, Errno>(e) && address_map(*final(self))
                        == address_map(*old(self)),
                    Ok(thread) => r is Ok && (address_map(*old(self)).contains_key((thread, key))
                        ==> r->Ok_0 == address_map(*old(self))[(thread, key)] && address_map(
                        *final(self),
                    ) == address_map(*old(self))) && (!address_map(*old(self)).contains_key(
                        (thread, key),
                    ) ==> allocate.ensures((), r->Ok_0) && address_map(*final(self))
                        == address_map(*old(self)).insert((thread, key), r->Ok_0)),
                },
    {
        match host.thread_id() {
            Ok(thread) => Ok(self.get_or_insert_with(thread, key, allocate)),
            Err(e) => Err(e),
        }
    }
}

/// A thread keeps the object it got for a variable: once thread `thread`
/// has been given `addr` for variable `key`, a later request of the same
/// thread for the same variable answers `addr` and creates nothing, and
/// requests of other threads or for other variables leave that entry alone.
pub proof fn lemma_object_is_kept(
    a0: TlsAddressArray,
    a1: TlsAddressArray,
    thread: usize,
    key: usize,
    addr: usize,
    t2: usize,
    k2: usize,
    r: usize,
)
    requires
        address_map(a0).contains_key((thread, key)),
        address_map(a0)[(thread, key)] == addr,
        address_map(a0).contains_key((t2, k2)) ==> r == address_map(a0)[(t2, k2)]
            && address_map(a1) == address_map(a0),
        !address_map(a0).contains_key((t2, k2)) ==> address_map(a1) == address_map(a0).insert(
            (t2, k2),
            r,
        ),
    ensures
        address_map(a1).contains_key((thread, key)),
        address_map(a1)[(thread, key)] == addr,
        (t2, k2) == (thread, key) ==> r == addr,
{
}

/// Repeated requests of one thread for one variable answer one address:
/// after a request of thread `thread` for variable `key` answered `r1`, the
/// next request of the same thread for the same variable answers `r1` again
/// and creates no object.
pub proof fn lemma_same_thread_gets_same_address(
    a0: TlsAddressArray,
    a1: TlsAddressArray,
    a2: TlsAddressArray,
    thread: usize,
    key: usize,
    r1: usize,
    r2: usize,
)
    requires
        address_map(a0).contains_key((thread, key)) ==> r1 == address_map(a0)[(thread, key)]
            && address_map(a1) == address_map(a0),
        !address_map(a0).contains_key((thread, key)) ==> address_map(a1) == address_map(
            a0,
        ).insert((thread, key), r1),
        address_map(a1).contains_key((thread, key)) ==> r2 == address_map(a1)[(thread, key)]
            && address_map(a2) == address_map(a1),
        !address_map(a1).contains_key((thread, key)) ==> address_map(a2) == address_map(
            a1,
        ).insert((thread, key), r2),
    ensures
        address_map(a1).contains_key((thread, key)),
        r2 == r1,
        address_map(a2) == address_map(a1),
{
}

} // verus!
