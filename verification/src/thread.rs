use vstd::prelude::*;

verus! {

/// The map from thread ids to the slots that hold their values.
#[verifier::external_body]
pub struct ThreadSlots {
    map: hashbrown::HashMap<usize, usize>,
}

/// What a `ThreadSlots` holds: for each thread that has a slot, its position.
pub uninterp spec fn slot_map(s: ThreadSlots) -> Map<usize, usize>;

/// `hashbrown::HashMap::get`: the position that the map holds for `thread`.
#[verifier::external_body]
fn thread_slots_get(s: &ThreadSlots, thread: usize) -> (r: Option<usize>)
    ensures
        r == (if slot_map(*s).contains_key(thread) {
            Some(slot_map(*s)[thread])
        } else {
            None::<usize>
        }),
{
    s.map.get(&thread).copied()
}

/// `hashbrown::HashMap::insert`: the map afterwards holds `slot` for
/// `thread` and is unchanged for every other thread.
#[verifier::external_body]
fn thread_slots_insert(s: &mut ThreadSlots, thread: usize, slot: usize)
    ensures
        slot_map(*final(s)) == slot_map(*old(s)).insert(thread, slot),
{
    s.map.insert(thread, slot);
}

/// `hashbrown::HashMap::new`: a map that holds nothing.
#[verifier::external_body]
fn thread_slots_new() -> (m: ThreadSlots)
    ensures
        slot_map(m).dom().is_empty(),
{
    ThreadSlots { map: hashbrown::HashMap::new() }
}

/// The state of one thread's value: not yet created, or created.
pub enum StateInner<T> {
    Uninit,
    Init(T),
}

impl<T> StateInner<T> {
    /// The value, created by `init` first when there is none yet.
    pub fn get_or_init<I: Fn() -> T>(&mut self, init: &I) -> (r: &T)
        requires
            *old(self) is Uninit ==> init.requires(()),
        ensures
            *final(self) is Init,
            *r == final(self)->Init_0,
            *old(self) is Init ==> *final(self) == *old(self),
            *old(self) is Uninit ==> init.ensures((), *r),
    {
        if let StateInner::Uninit = self {
            *self = StateInner::Init(init());
        }
        match self {
            StateInner::Init(v) => v,
            StateInner::Uninit => vstd::pervasive::unreached(),
        }
    }
}

/// The error of `try_with` for a key whose value is gone.
pub struct AccessError;

/// A thread-local value: each thread that uses the key sees a value of its
/// own, created by the key's initializer on the thread's first use.
///
/// Threads are named by the ids that the host reports for them.
#[verifier::reject_recursive_types(T)]
pub struct LocalKey<T, F: Fn() -> T> {
    init: F,
    threads: ThreadSlots,
    slots: Vec<Box<StateInner<T>>>,
}

impl<T, F: Fn() -> T> LocalKey<T, F> {
    /// The initializer can always be called; every thread has its own slot.
    pub closed spec fn wf(self) -> bool {
        &&& self.init.requires(())
        &&& forall|t: usize| #[trigger]
            slot_map(self.threads).contains_key(t) ==> slot_map(self.threads)[t]
                < self.slots@.len()
        &&& forall|t1: usize, t2: usize|
            #![trigger slot_map(self.threads)[t1], slot_map(self.threads)[t2]]
            slot_map(self.threads).contains_key(t1) && slot_map(self.threads).contains_key(
                t2,
            ) && t1 != t2 ==> slot_map(self.threads)[t1] != slot_map(self.threads)[t2]
    }

    /// Whether thread `t` has a created value.
    closed spec fn has_value(self, t: usize) -> bool {
        &&& slot_map(self.threads).contains_key(t)
        &&& (*self.slots@[slot_map(self.threads)[t] as int]) is Init
    }

    /// The values that the threads have created so far.
    pub closed spec fn values(self) -> Map<usize, T> {
        Map::new(
            |t: usize| self.has_value(t),
            |t: usize| (*self.slots@[slot_map(self.threads)[t] as int])->Init_0,
        )
    }

    /// The initializer.
    pub closed spec fn initializer(self) -> F {
        self.init
    }

    /// Whether thread `thread` sees `v` on its next use of the key: its value
    /// if it has one, else a value that the initializer can give.
    pub open spec fn sees(self, thread: usize, v: T) -> bool {
        if self.values().contains_key(thread) {
            v == self.values()[thread]
        } else {
            self.initializer().ensures((), v)
        }
    }

    /// A key whose values `init` creates; no thread has a value yet.
    pub fn new(init: F) -> (r: Self)
        requires
            init.requires(()),
        ensures
            r.wf(),
            r.values() == Map::<usize, T>::empty(),
            r.initializer() == init,
    {
        let r = LocalKey { init, threads: thread_slots_new(), slots: Vec::new() };
        assert(r.values() =~= Map::<usize, T>::empty());
        r
    }

    /// The position of the slot of thread `thread`, creating an empty slot
    /// for it first when it has none.
    fn slot_index(&mut self, thread: usize) -> (i: usize)
        requires
            old(self).wf(),
        ensures
            final(self).wf(),
            final(self).values() == old(self).values(),
            final(self).initializer() == old(self).initializer(),
            slot_map(final(self).threads).contains_key(thread),
            slot_map(final(self).threads)[thread] == i,
            i < final(self).slots@.len(),
    {
        let ghost before = *self;
        match thread_slots_get(&self.threads, thread) {
            Some(i) => i,
            None => {
                let i = self.slots.len();
                self.slots.push(Box::new(StateInner::Uninit));
                thread_slots_insert(&mut self.threads, thread, i);
                assert(self.values() =~= before.values());
                i
            },
        }
    }

    /// The state of thread `thread`, with its value created first when it has
    /// none. The state stays where it is: each thread's value keeps one place
    /// for as long as the key lives, whatever other threads do. What the
    /// caller leaves in the state becomes the thread's value.
    fn state(&mut self, thread: usize) -> (r: &mut StateInner<T>)
        requires
            old(self).wf(),
        ensures
            *r is Init,
            old(self).sees(thread, r->Init_0),
            final(self).wf(),
            final(self).initializer() == old(self).initializer(),
            final(self).values() == match *final(r) {
                StateInner::Init(v) => old(self).values().insert(thread, v),
                StateInner::Uninit => old(self).values().remove(thread),
            },
    {
        let i = self.slot_index(thread);
        let ghost mid = *self;
        let slot: &mut Box<StateInner<T>> = &mut self.slots[i];
        let _ = slot.get_or_init(&self.init);
        proof {
            assert forall|t: usize| #[trigger]
                slot_map(mid.threads).contains_key(t) && t != thread implies slot_map(
                    mid.threads,
                )[t] != i by {}
        }
        &mut **slot
    }

    /// Calls `f` with this thread's value, creating the value first when the
    /// thread has none.
    pub fn with<R, G: FnOnce(&T) -> R>(&mut self, thread: usize, f: G) -> (r: R)
        requires
            old(self).wf(),
            forall|v: T| old(self).sees(thread, v) ==> #[trigger] f.requires((&v,)),
        ensures
            final(self).wf(),
            exists|v: T|
                old(self).sees(thread, v) && final(self).values() == old(self).values().insert(
                    thread,
                    v,
                ) && #[trigger] f.ensures((&v,), r),
            final(self).initializer() == old(self).initializer(),
    {
        let state = self.state(thread);
        match state {
            StateInner::Init(v) => f(v),
            StateInner::Uninit => vstd::pervasive::unreached(),
        }
    }

    /// `with`, answered in `Ok`: a value of this key is never destroyed.
    pub fn try_with<R, G: FnOnce(&T) -> R>(&mut self, thread: usize, f: G) -> (r: Result<
        R,
        AccessError,
    >)
        requires
            old(self).wf(),
            forall|v: T| old(self).sees(thread, v) ==> #[trigger] f.requires((&v,)),
        ensures
            final(self).wf(),
            r is Ok,
            exists|v: T|
                old(self).sees(thread, v) && final(self).values() == old(self).values().insert(
                    thread,
                    v,
                ) && #[trigger] f.ensures((&v,), r->Ok_0),
            final(self).initializer() == old(self).initializer(),
    {
        let r = self.with(thread, f);
        let res: Result<R, AccessError> = Ok(r);
        assert(res->Ok_0 == r);
        res
    }

    /// Stores `value` as this thread's value.
    pub fn set(&mut self, thread: usize, value: T)
        requires
            old(self).wf(),
        ensures
            final(self).wf(),
            final(self).values() == old(self).values().insert(thread, value),
            final(self).initializer() == old(self).initializer(),
    {
        let state = self.state(thread);
        *state = StateInner::Init(value);
    }

    /// A copy of this thread's value.
    pub fn get(&mut self, thread: usize) -> (r: T) where T: Copy
        requires
            old(self).wf(),
        ensures
            final(self).wf(),
            old(self).sees(thread, r),
            final(self).values() == old(self).values().insert(thread, r),
            final(self).initializer() == old(self).initializer(),
    {
        let state = self.state(thread);
        match state {
            StateInner::Init(v) => *v,
            StateInner::Uninit => vstd::pervasive::unreached(),
        }
    }

    /// This thread's value, leaving the default value in its place.
    pub fn take(&mut self, thread: usize) -> (r: T) where T: Default
        requires
            old(self).wf(),
        ensures
            final(self).wf(),
            old(self).sees(thread, r),
            exists|d: T| #[trigger]
                call_ensures(T::default, (), d) && final(self).values() == old(self).values().insert(
                    thread,
                    d,
                ),
            final(self).initializer() == old(self).initializer(),
    {
        let state = self.state(thread);
        let mut prev = StateInner::Init(T::default());
        core::mem::swap(state, &mut prev);
        match prev {
            StateInner::Init(v) => v,
            StateInner::Uninit => vstd::pervasive::unreached(),
        }
    }

    /// Stores `value` as this thread's value and answers the value before.
    pub fn replace(&mut self, thread: usize, value: T) -> (r: T)
        requires
            old(self).wf(),
        ensures
            final(self).wf(),
            old(self).sees(thread, r),
            final(self).values() == old(self).values().insert(thread, value),
            final(self).initializer() == old(self).initializer(),
    {
        let state = self.state(thread);
        let mut prev = StateInner::Init(value);
        core::mem::swap(state, &mut prev);
        match prev {
            StateInner::Init(v) => v,
            StateInner::Uninit => vstd::pervasive::unreached(),
        }
    }

    /// Replaces this thread's value by what `f` makes of it.
    pub fn update<U: FnOnce(T) -> T>(&mut self, thread: usize, f: U) where T: Copy
        requires
            old(self).wf(),
            forall|v: T| old(self).sees(thread, v) ==> #[trigger] f.requires((v,)),
        ensures
            final(self).wf(),
            exists|v: T, w: T|
                old(self).sees(thread, v) && #[trigger] f.ensures((v,), w) && final(self).values()
                    == old(self).values().insert(thread, w),
            final(self).initializer() == old(self).initializer(),
    {
        let state = self.state(thread);
        let v = match state {
            StateInner::Init(v) => *v,
            StateInner::Uninit => vstd::pervasive::unreached(),
        };
        *state = StateInner::Init(f(v));
    }

    /// Calls `f` with a shared borrow of this thread's value.
    pub fn with_borrow<R, G: FnOnce(&T) -> R>(&mut self, thread: usize, f: G) -> (r: R)
        requires
            old(self).wf(),
            forall|v: T| old(self).sees(thread, v) ==> #[trigger] f.requires((&v,)),
        ensures
            final(self).wf(),
            exists|v: T|
                old(self).sees(thread, v) && final(self).values() == old(self).values().insert(
                    thread,
                    v,
                ) && #[trigger] f.ensures((&v,), r),
            final(self).initializer() == old(self).initializer(),
    {
        self.with(thread, f)
    }

    /// Calls `f` with a mutable borrow of this thread's value; what `f` leaves
    /// there becomes the thread's value.
    pub fn with_borrow_mut<R, G: FnOnce(&mut T) -> R>(&mut self, thread: usize, f: G) -> (r: R)
        requires
            old(self).wf(),
            forall|x: &mut T| old(self).sees(thread, *x) ==> #[trigger] f.requires((x,)),
        ensures
            final(self).wf(),
            exists|x: &mut T|
                old(self).sees(thread, *x) && #[trigger] f.ensures((x,), r) && final(self).values()
                    == old(self).values().insert(thread, *final(x)),
            final(self).initializer() == old(self).initializer(),
    {
        let state = self.state(thread);
        match state {
            StateInner::Init(v) => f(v),
            StateInner::Uninit => vstd::pervasive::unreached(),
        }
    }

    /// Once a thread has stored or created a value, its next use sees
    /// exactly that value.
    pub proof fn lemma_stored_value_is_seen(k0: Self, k1: Self, thread: usize, value: T, v: T)
        requires
            k1.values() == k0.values().insert(thread, value),
        ensures
            k1.sees(thread, v) <==> v == value,
    {
    }

    /// A thread's use of the key changes nothing that another thread sees.
    pub proof fn lemma_threads_are_independent(
        k0: Self,
        k1: Self,
        thread: usize,
        value: T,
        other: usize,
        v: T,
    )
        requires
            k1.values() == k0.values().insert(thread, value),
            k1.initializer() == k0.initializer(),
            other != thread,
        ensures
            k1.sees(other, v) <==> k0.sees(other, v),
    {
    }

    /// On a key that no thread has used, every thread's first use sees a
    /// value that the initializer gives.
    pub proof fn lemma_fresh_key_sees_initial_value(k: Self, thread: usize, v: T)
        requires
            k.values() == Map::<usize, T>::empty(),
        ensures
            k.sees(thread, v) <==> k.initializer().ensures((), v),
    {
    }
}

} // verus!
