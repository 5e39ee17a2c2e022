use vstd::prelude::*;

use crate::host::{Host, Result};
use crate::io::Errno;

verus! {

/// One kibibyte.
pub const KIB: usize = 1024;

/// One mebibyte.
pub const MIB: usize = KIB * KIB;

/// The heap starts at 1 TiB (on the 64-bit targets that the runtime serves).
pub const HEAP_START: u64 = 1099511627776;

/// The break is extended in multiples of 64 KiB.
pub const GRANULARITY: usize = 64 * KIB;

/// The largest single mapping that growth asks for by itself.
pub const MAX_MMAP: usize = 16 * MIB;

/// The alignment of a malloc chunk on the 64-bit targets of this runtime.
pub const MALLOC_CHUNK_ALIGN: usize = 8;

/// The size of a malloc chunk header on the 64-bit targets of this runtime.
pub const MALLOC_HEAD: usize = 8;

/// `v` rounded up to a multiple of `a`.
pub open spec fn align_up_spec(v: int, a: int) -> int
    recommends
        a > 0,
{
    ((v + a - 1) / a) * a
}

/// The minimum growth steps that the break can be in: 64 KiB times a power
/// of two, up to 16 MiB.
pub open spec fn is_growth_step(m: int) -> bool {
    ||| m == 65536
    ||| m == 131072
    ||| m == 262144
    ||| m == 524288
    ||| m == 1048576
    ||| m == 2097152
    ||| m == 4194304
    ||| m == 8388608
    ||| m == 16777216
}

/// The next minimum growth step after a mapping succeeded: twice the step,
/// at most `MAX_MMAP`.
pub open spec fn next_growth_step(m: int) -> int {
    if 2 * m < MAX_MMAP {
        2 * m
    } else {
        MAX_MMAP as int
    }
}

/// The bytes that malloc adds in front of a request made at break `brk`, so
/// that its chunk ends up aligned.
pub open spec fn chunk_padding_spec(brk: int) -> int {
    align_up_spec(brk + MALLOC_HEAD, MALLOC_CHUNK_ALIGN as int) - MALLOC_HEAD - brk
}

/// Rounds `val` up to a multiple of the power of two `align`.
pub fn align_up(val: usize, align: usize) -> (r: usize)
    requires
        vstd::arithmetic::power2::is_pow2(align as int),
        val + align - 1 <= usize::MAX,
    ensures
        r == align_up_spec(val as int, align as int),
{
    let ghost n: nat;
    proof {
        vstd::arithmetic::power2::is_pow2_equiv(align as int);
        n = choose|i: nat| vstd::arithmetic::power::pow(2, i) == align;
        assert(vstd::arithmetic::power2::pow2(n) == align);
        vstd::arithmetic::power2::lemma_pow2_pos(n);
    }
    let s = val + (align - 1);
    let r = s & !(align - 1);
    proof {
        let m = (align - 1) as usize;
        assert(r == s & !m);
        assert(r & m == 0 && r <= s && s - r <= m) by (bit_vector)
            requires
                r == s & !m,
        ;
        if n >= usize::BITS {
            vstd::arithmetic::power2::lemma2_to64();
            if n > usize::BITS {
                vstd::arithmetic::power2::lemma_pow2_strictly_increases(usize::BITS as nat, n);
            }
            assert(false);
        }
        vstd::bits::lemma_usize_low_bits_mask_is_mod(r, n);
        assert(vstd::bits::low_bits_mask(n) as usize == m);
        let a = align as int;
        let k = (r as int) / a;
        vstd::arithmetic::div_mod::lemma_fundamental_div_mod(r as int, a);
        assert(r == k * a);
        vstd::arithmetic::div_mod::lemma_fundamental_div_mod_converse(
            s as int, a, k, (s - r) as int);
    }
    r
}

/// Rounding `v` up to a multiple of `a` adds less than `a`.
proof fn lemma_align_up_bounds(v: int, a: int)
    requires
        a > 0,
    ensures
        v <= align_up_spec(v, a) <= v + a - 1,
{
    vstd::arithmetic::div_mod::lemma_fundamental_div_mod(v + a - 1, a);
    vstd::arithmetic::mul::lemma_mul_is_commutative(a, (v + a - 1) / a);
}

/// The heap's granularity is a power of two.
proof fn lemma_granularity_is_pow2()
    ensures
        vstd::arithmetic::power2::is_pow2(GRANULARITY as int),
{
    vstd::arithmetic::power2::lemma2_to64();
    assert(vstd::arithmetic::power2::pow2(16) == GRANULARITY);
    vstd::arithmetic::power2::lemma_pow2(16);
    assert(vstd::arithmetic::power::pow(2, 16) == GRANULARITY);
    vstd::arithmetic::power2::is_pow2_equiv(GRANULARITY as int);
}

/// The padding in front of an allocation made at break `brk`.
fn chunk_padding(brk: usize) -> (r: usize)
    ensures
        r == chunk_padding_spec(brk as int),
        r < MALLOC_CHUNK_ALIGN,
{
    let rem = brk % MALLOC_CHUNK_ALIGN;
    let r = if rem == 0 {
        0
    } else {
        MALLOC_CHUNK_ALIGN - rem
    };
    assert(r == chunk_padding_spec(brk as int)) by (nonlinear_arith)
        requires
            rem == brk % 8,
            r == (if rem == 0 { 0int } else { 8 - rem }),
    {
    }
    r
}

/// The program break: the end of the heap that `sbrk` hands out, inside the
/// region `[brk_start, brk_end)` that the host has mapped.
pub struct Brk {
    brk: usize,
    brk_start: usize,
    brk_end: usize,
    min_increment: usize,
}

impl Brk {
    /// The break never leaves its mapped region, and the minimum growth step
    /// stays a power of two between 64 KiB and 16 MiB.
    #[verifier::type_invariant]
    spec fn inv(self) -> bool {
        &&& self.brk_start <= self.brk <= self.brk_end
        &&& is_growth_step(self.min_increment as int)
    }

    /// The current break.
    pub closed spec fn cur(self) -> usize {
        self.brk
    }

    /// The start of the current mapped region.
    pub closed spec fn start(self) -> usize {
        self.brk_start
    }

    /// The end of the current mapped region.
    pub closed spec fn end(self) -> usize {
        self.brk_end
    }

    /// The smallest mapping that growth asks the host for.
    pub closed spec fn step(self) -> usize {
        self.min_increment
    }

    /// The invariant, as the contracts and laws see it.
    pub closed spec fn valid(self) -> bool {
        self.inv()
    }

    /// Whether `new` equals `old` with the break moved to `brk`.
    pub open spec fn moved(old: Brk, new: Brk, brk: int) -> bool {
        &&& new.cur() == brk
        &&& new.start() == old.start()
        &&& new.end() == old.end()
        &&& new.step() == old.step()
    }

    /// Whether `new` holds the same mapped region and break as `old`.
    pub open spec fn same_region(old: Brk, new: Brk) -> bool {
        &&& new.cur() == old.cur()
        &&& new.start() == old.start()
        &&& new.end() == old.end()
    }

    /// A break at the start of the heap with nothing mapped yet.
    pub fn new() -> (r: Self)
        ensures
            r.cur() == HEAP_START as usize,
            r.start() == HEAP_START as usize,
            r.end() == HEAP_START as usize,
            r.step() == GRANULARITY,
            r.valid(),
    {
        #[verifier::truncate]
        let start = HEAP_START as usize;
        Brk { brk: start, brk_start: start, brk_end: start, min_increment: GRANULARITY }
    }

    /// Whether `incr` more bytes fit between the break and the region's end.
    pub fn has_capacity(&self, incr: usize) -> (r: bool)
        ensures
            r == (self.cur() + incr <= self.end()),
    {
        proof {
            use_type_invariant(self);
        }
        incr <= self.brk_end - self.brk
    }

    /// The size that growth asks the host to map for a request of `want`
    /// bytes while the minimum growth step is `step`: the larger of the two.
    pub open spec fn request_size(want: int, step: int) -> int {
        if want > step {
            want
        } else {
            step
        }
    }

    /// Whether `after` is `before` with a mapping of `size` bytes at `at`
    /// recorded while the minimum growth step was `step`: a mapping at the
    /// region's end extends the region, any other becomes the new region with
    /// the break at its start, and the step doubles, up to `MAX_MMAP`.
    pub open spec fn records(before: Brk, step: int, after: Brk, at: int, size: int) -> bool {
        &&& after.step() == next_growth_step(step)
        &&& at == before.end() ==> {
            &&& after.cur() == before.cur()
            &&& after.start() == before.start()
            &&& after.end() == before.end() + size
        }
        &&& at != before.end() ==> {
            &&& after.cur() == at
            &&& after.start() == at
            &&& after.end() == at + size
        }
    }

    /// Whether the host's `mmap` of `size` bytes at `at` can refuse, as a
    /// call with those arguments did.
    pub open spec fn mmap_refused<H: Host + ?Sized>(host: &H, at: usize, size: usize) -> bool {
        exists|e: Errno| #[trigger] call_ensures(H::mmap, (host, at, size), Err::<usize, Errno>(e))
    }

    /// Whether growing `before` for `want` bytes ended in `after` with answer
    /// `r`, trying the minimum steps `steps` in turn: each try asks the host
    /// for `request_size(want, step)` bytes at the region's end; while the
    /// host refuses and the step exceeds `want`, the step is halved and the
    /// host asked again. The last try's answer decides: a mapping is recorded
    /// and answered `Ok`, a refusal is answered with the host's error and
    /// leaves the region as it was, with the last step tried.
    pub open spec fn retries<H: Host + ?Sized>(
        host: &H,
        before: Brk,
        want: int,
        steps: Seq<usize>,
        r: Result<()>,
        after: Brk,
    ) -> bool {
        &&& steps.len() >= 1
        &&& steps[0] == before.step()
        &&& forall|i: int|
            #![trigger steps[i]]
            0 <= i < steps.len() - 1 ==> steps[i] > want && steps[i + 1] == steps[i] / 2
                && Self::mmap_refused(
                host,
                before.end(),
                Self::request_size(want, steps[i] as int) as usize,
            )
        &&& exists|a: Result<usize>| #[trigger]
            call_ensures(
                H::mmap,
                (host, before.end(), Self::request_size(want, steps.last() as int) as usize),
                a,
            ) && match a {
                Ok(at) => r is Ok && Self::records(
                    before,
                    steps.last() as int,
                    after,
                    at as int,
                    Self::request_size(want, steps.last() as int),
                ),
                Err(e) => r == Err::<(), Errno>(e) && steps.last() <= want && Self::same_region(
                    before,
                    after,
                ) && after.step() == steps.last(),
            }
    }

    /// The answer of a growth inside `sbrk`, without the address.
    pub open spec fn unit_result(r: Result<usize>) -> Result<()> {
        match r {
            Ok(_) => Ok(()),
            Err(e) => Err(e),
        }
    }

    /// Records a mapping of `size` bytes that the host made at `mapped_at`
    /// for a request at the region's end: a mapping right at the end extends
    /// the region, any other starts a new region there. Either way the next
    /// minimum growth step doubles, up to `MAX_MMAP`.
    pub fn record_mapping(&mut self, mapped_at: usize, size: usize)
        requires
            mapped_at + size <= usize::MAX,
        ensures
            Self::records(*old(self), old(self).step() as int, *final(self), mapped_at as int, size as int),
            final(self).valid(),
    {
        proof {
            use_type_invariant(&*self);
        }
        let doubled = 2 * self.min_increment;
        let next = if doubled < MAX_MMAP {
            doubled
        } else {
            MAX_MMAP
        };
        if mapped_at == self.brk_end {
            *self = Brk {
                brk: self.brk,
                brk_start: self.brk_start,
                brk_end: self.brk_end + size,
                min_increment: next,
            };
        } else {
            *self = Brk {
                brk: mapped_at,
                brk_start: mapped_at,
                brk_end: mapped_at + size,
                min_increment: next,
            };
        }
        proof {
            use_type_invariant(&*self);
        }
    }

    /// Asks the host for at least `incr` more bytes (at least the minimum
    /// growth step) at the region's end and records what it mapped.
    pub fn extend_impl<H: Host + ?Sized>(&mut self, host: &H, incr: usize) -> (r: Result<()>)
        ensures
            final(self).valid(),
            exists|a: Result<usize>| #[trigger]
                call_ensures(
                    H::mmap,
                    (
                        host,
                        old(self).end(),
                        Self::request_size(incr as int, old(self).step() as int) as usize,
                    ),
                    a,
                ) && match a {
                    Ok(at) => r is Ok && Self::records(
                        *old(self),
                        old(self).step() as int,
                        *final(self),
                        at as int,
                        Self::request_size(incr as int, old(self).step() as int),
                    ),
                    Err(e) => r == Err::<(), Errno>(e) && *final(self) == *old(self),
                },
            r is Err ==> *final(self) == *old(self),
            r is Ok ==> {
                let size = if incr > old(self).step() { incr as int } else { old(self).step() as int };
                &&& final(self).step() == next_growth_step(old(self).step() as int)
                &&& ({
                    ||| final(self).cur() == old(self).cur() && final(self).start() == old(self).start()
                        && final(self).end() == old(self).end() + size
                    ||| final(self).cur() == final(self).start() && final(self).end() == final(self).start() + size
                })
            },
    {
        proof {
            use_type_invariant(&*self);
        }
        let size = if incr > self.min_increment {
            incr
        } else {
            self.min_increment
        };
        match host.mmap(self.brk_end, size) {
            Ok(mapped_at) => {
                self.record_mapping(mapped_at, size);
                Ok(())
            },
            Err(e) => Err(e),
        }
    }

    /// Grows the region so that `incr` more bytes fit after the break,
    /// retrying with smaller minimum steps while the host refuses and the
    /// step is larger than the rounded request.
    fn extend<H: Host + ?Sized>(&mut self, host: &H, incr: usize) -> (r: Result<()>)
        requires
            0 < incr,
            incr + (GRANULARITY - 1) <= usize::MAX,
        ensures
            final(self).valid(),
            r is Err ==> Self::same_region(*old(self), *final(self)),
            r is Err ==> final(self).step() <= old(self).step(),
            exists|steps: Seq<usize>| #[trigger]
                Self::retries(
                    host,
                    *old(self),
                    align_up_spec(incr as int, GRANULARITY as int),
                    steps,
                    r,
                    *final(self),
                ),
            r is Ok ==> final(self).cur() + incr <= final(self).end(),
            r is Ok ==> {
                let want = align_up_spec(incr as int, GRANULARITY as int);
                ||| final(self).cur() == old(self).cur() && final(self).start() == old(self).start()
                    && final(self).end() >= old(self).end() + want
                ||| final(self).cur() == final(self).start() && final(self).end()
                    >= final(self).start() + want
            },
    {
        proof {
            lemma_granularity_is_pow2();
        }
        let want = align_up(incr, GRANULARITY);
        proof {
            use_type_invariant(&*self);
        }
        let ghost orig = *self;
        let ghost mut steps: Seq<usize> = seq![self.min_increment];
        loop
            invariant
                steps.len() >= 1,
                steps[0] == orig.step(),
                steps.last() == self.step(),
                forall|i: int|
                    #![trigger steps[i]]
                    0 <= i < steps.len() - 1 ==> steps[i] > want && steps[i + 1] == steps[i] / 2
                        && Self::mmap_refused(
                        host,
                        orig.end(),
                        Self::request_size(want as int, steps[i] as int) as usize,
                    ),
                want >= GRANULARITY,
                want >= incr,
                want == align_up_spec(incr as int, GRANULARITY as int),
                orig == *old(self),
                Self::same_region(orig, *self),
                self.step() <= orig.step(),
                self.valid(),
                orig.valid(),
            decreases self.step(),
        {
            proof {
                use_type_invariant(&*self);
            }
            let ghost before = *self;
            let size = Ghost(Self::request_size(want as int, before.step() as int) as usize);
            match self.extend_impl(host, want) {
                Err(e) => {
                    proof {
                        assert(call_ensures(H::mmap, (host, before.end(), size@), Err::<usize, Errno>(e)));
                    }
                    if self.min_increment > want {
                        let half = self.min_increment / 2;
                        self.min_increment = half;
                        proof {
                            let old_steps = steps;
                            steps = steps.push(half);
                            assert forall|i: int|
                                #![trigger steps[i]]
                                0 <= i < steps.len() - 1 implies steps[i] > want && steps[i + 1]
                                    == steps[i] / 2 && Self::mmap_refused(
                                    host,
                                    orig.end(),
                                    Self::request_size(want as int, steps[i] as int) as usize,
                                ) by {
                                if i < old_steps.len() - 1 {
                                    assert(steps[i] == old_steps[i]);
                                    assert(steps[i + 1] == old_steps[i + 1]);
                                    assert(old_steps[i] == old_steps[i]);
                                } else {
                                    assert(steps[i] == before.step());
                                }
                            }
                        }
                    } else {
                        proof {
                            assert(Self::retries(host, orig, want as int, steps, Err::<(), Errno>(e), *self));
                        }
                        return Err(e);
                    }
                },
                Ok(()) => {
                    proof {
                        assert(Self::retries(host, orig, want as int, steps, Ok::<(), Errno>(()), *self));
                    }
                    return Ok(());
                },
            }
        }
    }

    /// Makes sure that `incr` more bytes fit after the break, growing the
    /// region when they do not.
    pub fn ensure_capacity<H: Host + ?Sized>(&mut self, host: &H, incr: usize) -> (r: Result<()>)
        requires
            incr + (GRANULARITY - 1) <= usize::MAX,
        ensures
            final(self).valid(),
            old(self).cur() + incr <= old(self).end() ==> r is Ok && *final(self) == *old(self),
            old(self).cur() + incr > old(self).end() ==> exists|steps: Seq<usize>| #[trigger]
                Self::retries(
                    host,
                    *old(self),
                    align_up_spec(incr as int, GRANULARITY as int),
                    steps,
                    r,
                    *final(self),
                ),
            r is Err ==> Self::same_region(*old(self), *final(self)),
            r is Ok ==> final(self).cur() + incr <= final(self).end(),
            r is Ok ==> {
                ||| final(self).cur() == old(self).cur() && final(self).start() == old(self).start()
                    && final(self).end() >= old(self).end()
                ||| final(self).cur() == final(self).start()
            },
    {
        proof {
            use_type_invariant(&*self);
        }
        if self.has_capacity(incr) {
            return Ok(());
        }
        self.extend(host, incr)
    }

    /// What `sbrk(incr)` may do to a break `old`, turning it into `new` and
    /// answering `r`. A request of zero bytes reports the break. A shrink
    /// that stays inside the region moves the break down; one past the
    /// region's start is refused with `ENOMEM`. A growth that fits, with the
    /// padding malloc will add for alignment, moves the break up; otherwise
    /// the region is grown first, and a failure leaves region and break as
    /// they were. A success answers the old break of the region in use.
    pub open spec fn sbrk_outcome(old: Brk, incr: int, r: Result<usize>, new: Brk) -> bool {
        &&& new.valid()
        &&& incr == 0 ==> r == Ok::<usize, Errno>(old.cur()) && new == old
        &&& incr < 0 && -incr > old.cur() - old.start() ==> r == Err::<usize, Errno>(Errno::ENOMEM)
            && new == old
        &&& incr < 0 && -incr <= old.cur() - old.start() ==> r == Ok::<usize, Errno>(old.cur())
            && Self::moved(old, new, old.cur() + incr)
        &&& incr > 0 && old.cur() + incr + chunk_padding_spec(old.cur() as int) <= old.end() ==> r
            == Ok::<usize, Errno>(old.cur()) && Self::moved(old, new, old.cur() + incr)
        &&& incr > 0 && r is Err ==> Self::same_region(old, new)
        &&& incr > 0 && r is Ok ==> {
            let p = r->Ok_0;
            &&& new.cur() == p + incr
            &&& p + incr + chunk_padding_spec(old.cur() as int) <= new.end()
            &&& (p == old.cur() && new.start() == old.start() && new.end() >= old.end())
                || p == new.start()
        }
    }

    /// Moves the break by `incr` bytes and answers the break before the move.
    pub fn sbrk<H: Host + ?Sized>(&mut self, host: &H, incr: isize) -> (r: Result<usize>)
        ensures
            Self::sbrk_outcome(*old(self), incr as int, r, *final(self)),
            incr > 0 && old(self).cur() + incr + chunk_padding_spec(old(self).cur() as int)
                > old(self).end() ==> exists|mid: Brk, steps: Seq<usize>| #[trigger]
                Self::retries(
                    host,
                    *old(self),
                    align_up_spec(
                        incr + chunk_padding_spec(old(self).cur() as int),
                        GRANULARITY as int,
                    ),
                    steps,
                    Self::unit_result(r),
                    mid,
                ) && (r matches Ok(p) ==> p == mid.cur() && Self::moved(mid, *final(self), p + incr))
                    && (r is Err ==> *final(self) == mid),
    {
        proof {
            use_type_invariant(&*self);
        }
        if incr == 0 {
            return Ok(self.brk);
        }
        if incr < 0 {
            let shrink = ((-(incr + 1)) as usize) + 1;
            if shrink > self.brk - self.brk_start {
                return Err(Errno::ENOMEM);
            }
            let old_brk = self.brk;
            self.brk = old_brk - shrink;
            return Ok(old_brk);
        }
        let ghost orig = *self;
        let incr = incr as usize;
        let padded = incr + chunk_padding(self.brk);
        let grown = self.ensure_capacity(host, padded);
        let ghost mid = *self;
        match grown {
            Err(e) => {
                return Err(e);
            },
            Ok(()) => {},
        }
        proof {
            use_type_invariant(&*self);
        }
        let old_brk = self.brk;
        self.brk = old_brk + incr;
        proof {
            let want = align_up_spec(padded as int, GRANULARITY as int);
            if orig.cur() + padded > orig.end() {
                let steps = choose|steps: Seq<usize>|
                    #[trigger] Self::retries(host, orig, want, steps, grown, mid);
                assert(Self::retries(
                    host,
                    orig,
                    want,
                    steps,
                    Self::unit_result(Ok::<usize, Errno>(old_brk)),
                    mid,
                ));
            }
        }
        Ok(old_brk)
    }

    /// The current break.
    pub fn brk(&self) -> (r: usize)
        ensures
            r == self.cur(),
            self.valid(),
    {
        proof {
            use_type_invariant(self);
        }
        self.brk
    }

    /// The start of the current mapped region.
    pub fn brk_start(&self) -> (r: usize)
        ensures
            r == self.start(),
            self.valid(),
    {
        proof {
            use_type_invariant(self);
        }
        self.brk_start
    }

    /// The end of the current mapped region.
    pub fn brk_end(&self) -> (r: usize)
        ensures
            r == self.end(),
            self.valid(),
    {
        proof {
            use_type_invariant(self);
        }
        self.brk_end
    }

    /// The smallest mapping that the next growth asks the host for.
    pub fn min_increment(&self) -> (r: usize)
        ensures
            r == self.step(),
            self.valid(),
    {
        proof {
            use_type_invariant(self);
        }
        self.min_increment
    }

    /// A valid break lies inside its mapped region, and its minimum growth
    /// step is a power of two between 64 KiB and 16 MiB.
    pub proof fn lemma_valid_break(b: Brk)
        requires
            b.valid(),
        ensures
            b.start() <= b.cur() <= b.end(),
            is_growth_step(b.step() as int),
            GRANULARITY <= b.step() <= MAX_MMAP,
    {
    }

    /// Shrinking the break by as many bytes as a successful growth just added
    /// succeeds, answers the grown break and puts the break back where the
    /// growth handed out its bytes.
    pub proof fn lemma_shrink_undoes_grow(
        b0: Brk,
        b1: Brk,
        b2: Brk,
        n: int,
        p: usize,
        r2: Result<usize>,
    )
        requires
            b0.valid(),
            n > 0,
            Self::sbrk_outcome(b0, n, Ok(p), b1),
            Self::sbrk_outcome(b1, -n, r2, b2),
        ensures
            r2 == Ok::<usize, Errno>(b1.cur()),
            b1.cur() == p + n,
            b2.cur() == p,
            b2.start() == b1.start(),
            b2.end() == b1.end(),
            b2.step() == b1.step(),
    {
    }

    /// A growth served at the old break leaves room, inside the mapped
    /// region, for the padding that malloc adds to align the chunk at the
    /// address handed out.
    pub proof fn lemma_growth_leaves_room_for_padding(b0: Brk, b1: Brk, n: int, p: usize)
        requires
            b0.valid(),
            n > 0,
            Self::sbrk_outcome(b0, n, Ok(p), b1),
            p == b0.cur(),
        ensures
            p + n + chunk_padding_spec(p as int) <= b1.end(),
            b1.cur() == p + n,
    {
    }

    /// Memory that `sbrk` hands out after growing lies in a mapping that the
    /// host made. When a request of `n` bytes had to grow the region and was
    /// answered `p`, the host's `mmap` was asked at the old region's end and
    /// mapped `size` bytes, at least the padded request rounded up to the
    /// granularity. A mapping right at the old end extends the region and
    /// `p` is the old break; a mapping anywhere else becomes the whole region
    /// and `p` is its start. Either way `[p, p + n)` lies inside the region.
    pub proof fn lemma_growth_is_host_mapping<H: Host + ?Sized>(
        host: &H,
        b0: Brk,
        mid: Brk,
        b1: Brk,
        steps: Seq<usize>,
        n: int,
        p: usize,
    )
        requires
            b0.valid(),
            0 < n <= isize::MAX,
            Self::retries(
                host,
                b0,
                align_up_spec(n + chunk_padding_spec(b0.cur() as int), GRANULARITY as int),
                steps,
                Self::unit_result(Ok(p)),
                mid,
            ),
            p == mid.cur(),
            Self::moved(mid, b1, p + n),
        ensures
            exists|at: usize, size: usize| #[trigger]
                call_ensures(H::mmap, (host, b0.end(), size), Ok::<usize, Errno>(at))
                    && size >= align_up_spec(
                    n + chunk_padding_spec(b0.cur() as int),
                    GRANULARITY as int,
                ) && (at == b0.end() ==> p == b0.cur() && b1.start() == b0.start() && b1.end()
                    == b0.end() + size) && (at != b0.end() ==> p == at && b1.start() == at
                    && b1.end() == at + size),
            b1.start() <= p,
            p + n <= b1.end(),
    {
        let pad = chunk_padding_spec(b0.cur() as int);
        let want = align_up_spec(n + pad, GRANULARITY as int);
        lemma_align_up_bounds(b0.cur() + MALLOC_HEAD, MALLOC_CHUNK_ALIGN as int);
        lemma_align_up_bounds(n + pad, GRANULARITY as int);
        let last = steps.last();
        let size = Self::request_size(want, last as int);
        let a = choose|a: Result<usize>| #[trigger]
            call_ensures(H::mmap, (host, b0.end(), size as usize), a) && match a {
                Ok(at) => Self::unit_result(Ok(p)) is Ok && Self::records(
                    b0,
                    last as int,
                    mid,
                    at as int,
                    size,
                ),
                Err(e) => Self::unit_result(Ok(p)) == Err::<(), Errno>(e) && last <= want
                    && Self::same_region(b0, mid) && mid.step() == last,
            };
        let at = a->Ok_0;
        assert(call_ensures(H::mmap, (host, b0.end(), size as usize), Ok::<usize, Errno>(at)));
    }

    /// A growth that fails answers the host's own error: the last request,
    /// for exactly the rounded request once the minimum step no longer
    /// exceeds it, was refused by the host's `mmap` with that error, and the
    /// break and its region stay as they were.
    pub proof fn lemma_failed_growth_is_host_error<H: Host + ?Sized>(
        host: &H,
        b0: Brk,
        b1: Brk,
        want: int,
        steps: Seq<usize>,
        e: Errno,
    )
        requires
            b0.valid(),
            GRANULARITY <= want <= usize::MAX,
            Self::retries(host, b0, want, steps, Err(e), b1),
        ensures
            call_ensures(H::mmap, (host, b0.end(), want as usize), Err::<usize, Errno>(e)),
            Self::same_region(b0, b1),
            b1.step() <= want,
    {
        let last = steps.last();
        let size = Self::request_size(want, last as int);
        let a = choose|a: Result<usize>| #[trigger]
            call_ensures(H::mmap, (host, b0.end(), size as usize), a) && match a {
                Ok(at) => Err::<(), Errno>(e) is Ok && Self::records(
                    b0,
                    last as int,
                    b1,
                    at as int,
                    size,
                ),
                Err(e2) => Err::<(), Errno>(e) == Err::<(), Errno>(e2) && last <= want
                    && Self::same_region(b0, b1) && b1.step() == last,
            };
        assert(a == Err::<usize, Errno>(e));
    }

    /// A request of zero bytes changes nothing and answers the break, and a
    /// refused request leaves the break and its region as they were.
    pub proof fn lemma_sbrk_zero_and_refusals(b0: Brk, b1: Brk, incr: int, r: Result<usize>)
        requires
            b0.valid(),
            Self::sbrk_outcome(b0, incr, r, b1),
        ensures
            incr == 0 ==> r == Ok::<usize, Errno>(b0.cur()) && b1 == b0,
            r is Err ==> Self::same_region(b0, b1),
    {
    }
}

} // verus!
