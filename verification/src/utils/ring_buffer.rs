use vstd::prelude::*;

verus! {

/// The sequence that a ring buffer of capacity `cap` holding `v` holds after
/// one overwriting push of `x`: the oldest item leaves once the buffer is full.
pub open spec fn overwrite_push<T>(v: Seq<T>, cap: nat, x: T) -> Seq<T> {
    if v.len() < cap {
        v.push(x)
    } else {
        v.drop_first().push(x)
    }
}

/// The sequence held after pushing every item of `items`, in order, onto `v`.
pub open spec fn overwrite_push_all<T>(v: Seq<T>, cap: nat, items: Seq<T>) -> Seq<T>
    decreases items.len(),
{
    if items.len() == 0 {
        v
    } else {
        overwrite_push(overwrite_push_all(v, cap, items.drop_last()), cap, items.last())
    }
}

/// A fixed-capacity ring buffer (circular buffer) that overwrites the oldest elements when full.
///
/// Internally uses a `Vec<T>` and a head index to track where to overwrite next.
pub struct RingBuffer<T> {
    inner: Vec<T>,
    capacity: usize,
    head: usize,
}

impl<T> RingBuffer<T> {
    /// The buffer's shape: never more items than the capacity, and the head
    /// moves only once the buffer has filled up.
    #[verifier::type_invariant]
    spec fn well_formed(&self) -> bool {
        &&& 0 < self.capacity
        &&& self.inner@.len() <= self.capacity
        &&& self.head < self.capacity
        &&& self.inner@.len() < self.capacity ==> self.head == 0
    }

    /// The items held, oldest first.
    pub closed spec fn view(&self) -> Seq<T> {
        self.inner@.subrange(self.head as int, self.inner@.len() as int) + self.inner@.subrange(
            0,
            self.head as int,
        )
    }

    /// The capacity that the buffer was created with.
    pub closed spec fn spec_capacity(&self) -> nat {
        self.capacity as nat
    }

    /// Creates a new `RingBuffer` with the given capacity.
    pub fn new(capacity: usize) -> (res: Self)
        requires
            capacity > 0,
        ensures
            res.view() == Seq::<T>::empty(),
            res.spec_capacity() == capacity,
    {
        let res = RingBuffer { inner: Vec::with_capacity(capacity), capacity, head: 0 };
        assert(res.view() =~= Seq::<T>::empty());
        res
    }

    /// Appends `item` to the buffer.
    ///
    /// If the buffer is not yet full, this will push new elements.
    /// Once full, further elements overwrite the oldest entries in FIFO order.
    pub fn push_overwrite(&mut self, item: T)
        ensures
            final(self).spec_capacity() == old(self).spec_capacity(),
            final(self).view() == overwrite_push(
                old(self).view(),
                old(self).spec_capacity(),
                item,
            ),
    {
        proof {
            use_type_invariant(&*self);
        }
        let mut taken = RingBuffer { inner: Vec::new(), capacity: self.capacity, head: 0 };
        std::mem::swap(&mut taken, self);
        let RingBuffer { mut inner, capacity, head } = taken;
        let ghost old_inner = inner@;
        let ghost h = head as int;
        if inner.len() < capacity {
            // Buffer not yet full: push normally
            inner.push(item);
            *self = RingBuffer { inner, capacity, head };
            assert(self.view() =~= old(self).view().push(item));
        } else {
            // Buffer full: overwrite at head index
            inner.set(head, item);
            // Advance head wrap-around
            let next = (head + 1) % capacity;
            proof {
                let n = old_inner.len() as int;
                let c = capacity as int;
                assert(n == c);
                if h + 1 == n {
                    vstd::arithmetic::div_mod::lemma_mod_self_0(c);
                    assert(next == 0);
                } else {
                    vstd::arithmetic::div_mod::lemma_small_mod((h + 1) as nat, c as nat);
                    assert(next == h + 1);
                }
            }
            *self = RingBuffer { inner, capacity, head: next };
            assert(self.view() =~= old(self).view().drop_first().push(item));
        }
    }

    /// Drains all elements, returning them in FIFO order, and resets the buffer to empty.
    pub fn drain(&mut self) -> (out: Vec<T>)
        ensures
            final(self).spec_capacity() == old(self).spec_capacity(),
            final(self).view() == Seq::<T>::empty(),
            out@ == old(self).view(),
    {
        proof {
            use_type_invariant(&*self);
        }
        let mut taken = RingBuffer { inner: Vec::new(), capacity: self.capacity, head: 0 };
        std::mem::swap(&mut taken, self);
        let RingBuffer { inner: mut rest, capacity, head } = taken;
        let len = rest.len();
        let mut out: Vec<T> = Vec::with_capacity(len);
        if head < len {
            // Drain from head to end
            let mut tail = rest.split_off(head);
            out.append(&mut tail);
            // Drain from start to head
            out.append(&mut rest);
        }
        assert(self.view() =~= Seq::<T>::empty());
        assert(out@ =~= old(self).view());
        out
    }
}

/// Pushing any sequence of items onto an empty ring buffer of capacity `cap`
/// leaves exactly the most recent `cap` of them (all of them when there are
/// fewer), oldest first.
pub proof fn law_keeps_most_recent<T>(cap: nat, items: Seq<T>)
    requires
        cap > 0,
    ensures
        overwrite_push_all(Seq::<T>::empty(), cap, items) == items.subrange(
            if items.len() > cap { items.len() - cap } else { 0 },
            items.len() as int,
        ),
    decreases items.len(),
{
    if items.len() > 0 {
        let prefix = items.drop_last();
        law_keeps_most_recent(cap, prefix);
        let before = overwrite_push_all(Seq::<T>::empty(), cap, prefix);
        if prefix.len() < cap {
            assert(before =~= prefix);
            assert(before.push(items.last()) =~= items);
        } else {
            assert(before.drop_first().push(items.last()) =~= items.subrange(
                items.len() - cap,
                items.len() as int,
            ));
        }
    } else {
        assert(items.subrange(0, 0) =~= items);
    }
}

} // verus!
