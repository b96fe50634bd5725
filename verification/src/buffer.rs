use vstd::prelude::*;

verus! {

/// Bounded staging buffer for one in-flight radio frame: a fixed backing
/// store of `capacity` bytes and a write cursor. The bytes `[0, cursor)`
/// are the staged frame; the rest of the backing store may hold stale
/// bytes from earlier fills. The backing store is never resized, and the
/// cursor stays strictly below the capacity after every successful
/// mutation, so the last byte of the declared capacity is never staged.
pub struct RadioBuffer {
    packet: Vec<u8>,
    pos: usize,
}

impl View for RadioBuffer {
    type V = Seq<u8>;

    /// The staged frame: the bytes `[0, cursor)` of the backing store.
    closed spec fn view(&self) -> Seq<u8> {
        self.packet@.take(self.pos as int)
    }
}

/// Whether one append of `data` to a buffer holding `contents` with the
/// given capacity succeeds: the cursor must stay strictly below the
/// capacity.
pub open spec fn append_ok(contents: Seq<u8>, capacity: nat, data: Seq<u8>) -> bool {
    contents.len() + data.len() < capacity
}

/// The staged bytes after one append: extended on success, unchanged on
/// failure.
pub open spec fn append_contents(contents: Seq<u8>, capacity: nat, data: Seq<u8>) -> Seq<u8> {
    if append_ok(contents, capacity, data) {
        contents + data
    } else {
        contents
    }
}

/// The staged bytes after a whole sequence of appends, first element first.
pub open spec fn appends_from(contents: Seq<u8>, capacity: nat, inputs: Seq<Seq<u8>>) -> Seq<u8>
    decreases inputs.len(),
{
    if inputs.len() == 0 {
        contents
    } else {
        appends_from(append_contents(contents, capacity, inputs[0]), capacity, inputs.drop_first())
    }
}

impl RadioBuffer {
    /// Number of bytes of the backing store.
    pub closed spec fn spec_capacity(&self) -> nat {
        self.packet@.len()
    }

    /// The write cursor: how many bytes are staged.
    pub closed spec fn spec_cursor(&self) -> nat {
        self.pos as nat
    }

    /// The whole backing store, staged and stale bytes alike.
    pub closed spec fn spec_raw(&self) -> Seq<u8> {
        self.packet@
    }

    /// The cursor never runs past the backing store, and the store is a
    /// real allocation, so its size fits the address space.
    pub open spec fn wf(&self) -> bool {
        self.spec_cursor() <= self.spec_capacity() && self.spec_capacity() <= usize::MAX
    }

    /// A fresh buffer: zero-filled backing store, cursor at zero.
    pub fn new(capacity: usize) -> (b: RadioBuffer)
        ensures
            b.wf(),
            b.spec_capacity() == capacity,
            b.spec_cursor() == 0,
            b@ == Seq::<u8>::empty(),
            b.spec_raw() == Seq::new(capacity as nat, |i: int| 0u8),
    {
        let mut packet: Vec<u8> = Vec::new();
        let mut i: usize = 0;
        while i < capacity
            invariant
                i <= capacity,
                packet@ =~= Seq::new(i as nat, |j: int| 0u8),
            decreases capacity - i,
        {
            packet.push(0u8);
            i = i + 1;
        }
        assert(packet@.take(0) =~= Seq::<u8>::empty());
        RadioBuffer { packet, pos: 0 }
    }

    /// Resets the cursor to zero. The backing store is left as it is: bytes
    /// beyond the new cursor are not erased.
    pub fn clear(&mut self)
        requires
            old(self).wf(),
        ensures
            final (self).wf(),
            final (self).spec_capacity() == old(self).spec_capacity(),
            final (self).spec_cursor() == 0,
            final (self)@ == Seq::<u8>::empty(),
            final (self).spec_raw() == old(self).spec_raw(),
    {
        self.pos = 0;
        assert(self.packet@.take(0) =~= Seq::<u8>::empty());
    }

    /// Appends `buf` behind the staged bytes, atomically: it copies and
    /// advances the cursor only when the cursor would stay strictly below
    /// the capacity, and otherwise reports failure leaving the buffer
    /// untouched.
    pub fn extend_from_slice(&mut self, buf: &[u8]) -> (r: Result<(), ()>)
        requires
            old(self).wf(),
        ensures
            final (self).wf(),
            r is Ok <==> append_ok(old(self)@, old(self).spec_capacity(), buf@),
            final (self)@ == append_contents(old(self)@, old(self).spec_capacity(), buf@),
            final (self).spec_capacity() == old(self).spec_capacity(),
            r is Ok ==> final (self).spec_cursor() == old(self).spec_cursor() + buf@.len(),
            r is Ok ==> final (self).spec_raw() == old(self).spec_raw().take(
                old(self).spec_cursor() as int,
            ) + buf@ + old(self).spec_raw().skip(old(self).spec_cursor() + buf@.len() as int),
            r is Err ==> *final (self) == *old(self),
    {
        let len = buf.len();
        if len < self.packet.len() - self.pos {
            let mut i: usize = 0;
            while i < len
                invariant
                    i <= len,
                    len == buf@.len(),
                    self.pos + len < self.packet@.len(),
                    self.packet@.len() <= usize::MAX,
                    self.pos == old(self).pos,
                    self.packet@.len() == old(self).packet@.len(),
                    forall|j: int|
                        0 <= j < self.packet@.len() && !(self.pos <= j < self.pos + i)
                            ==> self.packet@[j] == old(self).packet@[j],
                    forall|j: int| 0 <= j < i ==> self.packet@[self.pos + j] == buf@[j],
                decreases len - i,
            {
                let b = buf[i];
                let at = self.pos + i;
                self.packet[at] = b;
                i = i + 1;
            }
            self.pos = self.pos + len;
            assert(self@ =~= old(self)@ + buf@);
            assert(self.packet@ =~= old(self).packet@.take(old(self).pos as int) + buf@
                + old(self).packet@.skip(old(self).pos + buf@.len()));
            Ok(())
        } else {
            Err(())
        }
    }

    /// Read view of the staged frame: the bytes `[0, cursor)`.
    pub fn read_view(&self) -> (s: &[u8])
        requires
            self.wf(),
        ensures
            s@ == self@,
    {
        vstd::slice::slice_subrange(self.packet.as_slice(), 0, self.pos)
    }

    /// Read view of the whole backing store, the full declared capacity,
    /// stale bytes included.
    pub fn as_raw_slice(&self) -> (s: &[u8])
        ensures
            s@ == self.spec_raw(),
    {
        self.packet.as_slice()
    }

    /// Writes `data` into the backing store at `offset`, bypassing the
    /// cursor: the raw fill a driver performs before `inc` publishes the
    /// received bytes. Fails, leaving the buffer untouched, when the write
    /// would run past the capacity.
    pub fn write_raw(&mut self, offset: usize, data: &[u8]) -> (r: Result<(), ()>)
        requires
            old(self).wf(),
        ensures
            final (self).wf(),
            r is Ok <==> offset + data@.len() <= old(self).spec_capacity(),
            final (self).spec_capacity() == old(self).spec_capacity(),
            final (self).spec_cursor() == old(self).spec_cursor(),
            r is Ok ==> final (self).spec_raw() == old(self).spec_raw().take(offset as int)
                + data@ + old(self).spec_raw().skip(offset + data@.len()),
            final (self)@ == final (self).spec_raw().take(old(self).spec_cursor() as int),
            r is Err ==> *final (self) == *old(self),
    {
        let len = data.len();
        if offset <= self.packet.len() && len <= self.packet.len() - offset {
            let mut i: usize = 0;
            while i < len
                invariant
                    i <= len,
                    len == data@.len(),
                    offset + len <= self.packet@.len(),
                    self.packet@.len() <= usize::MAX,
                    self.pos == old(self).pos,
                    self.packet@.len() == old(self).packet@.len(),
                    forall|j: int|
                        0 <= j < self.packet@.len() && !(offset <= j < offset + i)
                            ==> self.packet@[j] == old(self).packet@[j],
                    forall|j: int| 0 <= j < i ==> self.packet@[offset + j] == data@[j],
                decreases len - i,
            {
                let b = data[i];
                let at = offset + i;
                self.packet[at] = b;
                i = i + 1;
            }
            assert(self.packet@ =~= old(self).packet@.take(offset as int) + data@
                + old(self).packet@.skip(offset + data@.len()));
            Ok(())
        } else {
            Err(())
        }
    }

    /// Publishes `len` bytes of a raw fill by advancing the cursor past
    /// them. Running the cursor to the capacity or beyond is a contract
    /// violation of the caller, not a recoverable failure.
    pub fn inc(&mut self, len: usize)
        requires
            old(self).wf(),
            old(self).spec_cursor() + len < old(self).spec_capacity(),
        ensures
            final (self).wf(),
            final (self).spec_capacity() == old(self).spec_capacity(),
            final (self).spec_cursor() == old(self).spec_cursor() + len,
            final (self).spec_raw() == old(self).spec_raw(),
            final (self)@ == old(self).spec_raw().take(old(self).spec_cursor() + len),
    {
        self.pos = self.pos + len;
    }

    /// Current cursor position.
    pub fn position(&self) -> (r: usize)
        ensures
            r == self.spec_cursor(),
    {
        self.pos
    }

    /// Declared capacity of the backing store.
    pub fn capacity(&self) -> (r: usize)
        ensures
            r == self.spec_capacity(),
    {
        self.packet.len()
    }
}

/// A cleared buffer answers any sequence of appends exactly as a freshly
/// constructed buffer of the same capacity: both start from an empty
/// staged frame, and what an append does is a function of the staged
/// bytes and the capacity alone.
pub proof fn lemma_clear_equals_fresh(cleared: RadioBuffer, fresh: RadioBuffer, inputs: Seq<Seq<u8>>)
    requires
        cleared@ == Seq::<u8>::empty(),
        fresh@ == Seq::<u8>::empty(),
        cleared.spec_capacity() == fresh.spec_capacity(),
    ensures
        appends_from(cleared@, cleared.spec_capacity(), inputs) == appends_from(
            fresh@,
            fresh.spec_capacity(),
            inputs,
        ),
{
}

} // verus!
