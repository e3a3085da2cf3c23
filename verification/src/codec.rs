use vstd::prelude::*;

verus! {

/// The state of an encoding: the bytes written so far, and whether every
/// field so far fitted.
pub open spec fn write_step(st: (Seq<u8>, bool), cap: nat, field: Seq<u8>) -> (Seq<u8>, bool) {
    if st.1 && st.0.len() + field.len() <= cap {
        (st.0 + field, true)
    } else {
        (st.0, false)
    }
}

/// Writes `fields` one after another into a buffer of `cap` bytes that holds
/// `st.0`; the first field that does not fit, and every field after it, is
/// left out.
pub open spec fn write_fields(st: (Seq<u8>, bool), cap: nat, fields: Seq<Seq<u8>>) -> (Seq<u8>, bool)
    decreases fields.len(),
{
    if fields.len() == 0 {
        st
    } else {
        write_step(write_fields(st, cap, fields.drop_last()), cap, fields.last())
    }
}

/// When everything fits, writing the fields appends their concatenation.
pub proof fn lemma_write_fields_fit(data: Seq<u8>, cap: nat, fields: Seq<Seq<u8>>)
    requires
        data.len() + fields.flatten().len() <= cap,
    ensures
        write_fields((data, true), cap, fields) == (data + fields.flatten(), true),
    decreases fields.len(),
{
    if fields.len() > 0 {
        let init = fields.drop_last();
        assert(init.push(fields.last()) == fields);
        init.lemma_flatten_push(fields.last());
        lemma_write_fields_fit(data, cap, init);
        assert(data + init.flatten() + fields.last() == data + fields.flatten());
    }
}

/// When the fields do not fit, writing them reports failure and leaves at
/// most `cap` bytes.
pub proof fn lemma_write_fields_overflow(data: Seq<u8>, cap: nat, fields: Seq<Seq<u8>>)
    requires
        data.len() <= cap,
    ensures
        write_fields((data, true), cap, fields).0.len() <= cap,
        write_fields((data, true), cap, fields).1 <==> data.len() + fields.flatten().len() <= cap,
        write_fields((data, true), cap, fields).1 ==> write_fields((data, true), cap, fields).0
            == data + fields.flatten(),
    decreases fields.len(),
{
    if fields.len() > 0 {
        let init = fields.drop_last();
        assert(init.push(fields.last()) == fields);
        init.lemma_flatten_push(fields.last());
        lemma_write_fields_overflow(data, cap, init);
        assert(data + init.flatten() + fields.last() == data + fields.flatten());
    }
}

/// The contents of a list of encoded fields.
pub open spec fn fields_view(fields: Seq<Vec<u8>>) -> Seq<Seq<u8>> {
    fields.map_values(|f: Vec<u8>| f@)
}

/// A bounded output buffer: encoding into it fails once the capacity is
/// reached.
pub struct Writer {
    buf: Vec<u8>,
    capacity: usize,
}

impl Writer {
    #[verifier::type_invariant]
    spec fn inv(self) -> bool {
        self.buf@.len() <= self.capacity
    }

    /// The bytes written so far.
    pub closed spec fn data(self) -> Seq<u8> {
        self.buf@
    }

    /// How many bytes the buffer can hold.
    pub closed spec fn cap(self) -> nat {
        self.capacity as nat
    }

    /// An empty buffer of `capacity` bytes.
    pub fn init(capacity: usize) -> (w: Writer)
        ensures
            w.data() == Seq::<u8>::empty(),
            w.cap() == capacity,
    {
        Writer { buf: Vec::new(), capacity }
    }

    /// Forgets what was written.
    pub fn clear(&mut self)
        ensures
            final(self).data() == Seq::<u8>::empty(),
            final(self).cap() == old(self).cap(),
    {
        self.buf = Vec::new();
    }

    /// The number of bytes written.
    pub fn used(&self) -> (r: usize)
        ensures
            r == self.data().len(),
            r <= self.cap(),
    {
        proof {
            use_type_invariant(self);
        }
        self.buf.len()
    }

    /// The number of bytes that can still be written.
    pub fn left(&self) -> (r: usize)
        ensures
            r == self.cap() - self.data().len(),
            self.data().len() <= self.cap(),
    {
        proof {
            use_type_invariant(self);
        }
        self.capacity - self.buf.len()
    }

    /// The bytes written so far.
    pub fn used_slice(&self) -> (r: &[u8])
        ensures
            r@ == self.data(),
    {
        self.buf.as_slice()
    }

    /// Appends `value` whole if it fits, else changes nothing.
    pub fn extend_from_slice(&mut self, value: &[u8]) -> (r: Option<usize>)
        ensures
            final(self).cap() == old(self).cap(),
            r is Some <==> old(self).data().len() + value@.len() <= old(self).cap(),
            r matches Some(n) ==> n == value@.len() && final(self).data() == old(self).data()
                + value@,
            r is None ==> final(self).data() == old(self).data(),
    {
        proof {
            use_type_invariant(&*self);
        }
        if self.capacity - self.buf.len() < value.len() {
            return None;
        }
        let mut buf = Vec::new();
        std::mem::swap(&mut buf, &mut self.buf);
        let ghost start = buf@;
        let mut i: usize = 0;
        while i < value.len()
            invariant
                i <= value@.len(),
                buf@ == start + value@.subrange(0, i as int),
            decreases value@.len() - i,
        {
            buf.push(value[i]);
            i = i + 1;
            assert(buf@ == start + value@.subrange(0, i as int));
        }
        assert(value@.subrange(0, value@.len() as int) == value@);
        self.buf = buf;
        Some(value.len())
    }

    /// Appends one byte if there is room, else changes nothing.
    pub fn push(&mut self, value: u8) -> (r: Option<usize>)
        ensures
            final(self).cap() == old(self).cap(),
            r is Some <==> old(self).data().len() + 1 <= old(self).cap(),
            r matches Some(n) ==> n == 1 && final(self).data() == old(self).data().push(value),
            r is None ==> final(self).data() == old(self).data(),
    {
        proof {
            use_type_invariant(&*self);
        }
        if self.capacity - self.buf.len() < 1 {
            return None;
        }
        let mut buf = Vec::new();
        std::mem::swap(&mut buf, &mut self.buf);
        buf.push(value);
        self.buf = buf;
        Some(1)
    }

    /// Overwrites the written bytes from `offset` on with `value`.
    pub fn patch(&mut self, offset: usize, value: &[u8])
        requires
            offset + value@.len() <= old(self).data().len(),
        ensures
            final(self).cap() == old(self).cap(),
            final(self).data() == old(self).data().subrange(0, offset as int) + value@
                + old(self).data().subrange(offset + value@.len(), old(self).data().len() as int),
    {
        proof {
            use_type_invariant(&*self);
        }
        let mut buf = Vec::new();
        std::mem::swap(&mut buf, &mut self.buf);
        let ghost before = buf@;
        let mut i: usize = 0;
        while i < value.len()
            invariant
                i <= value@.len(),
                offset + value@.len() <= before.len(),
                before.len() <= self.capacity,
                buf@.len() == before.len(),
                forall|k: int| 0 <= k < offset ==> buf@[k] == before[k],
                forall|k: int| 0 <= k < i ==> buf@[offset + k] == value@[k],
                forall|k: int| offset + i <= k < before.len() ==> buf@[k] == before[k],
            decreases value@.len() - i,
        {
            buf.set(offset + i, value[i]);
            i = i + 1;
        }
        assert(buf@ == before.subrange(0, offset as int) + value@ + before.subrange(
            offset + value@.len(),
            before.len() as int,
        ));
        self.buf = buf;
    }

    /// Writes `fields` one after another, stopping at the first that does not
    /// fit; true when all of them were written.
    pub fn write_fields(&mut self, fields: &Vec<Vec<u8>>) -> (r: bool)
        ensures
            final(self).cap() == old(self).cap(),
            (final(self).data(), r) == write_fields(
                (old(self).data(), true),
                old(self).cap(),
                fields_view(fields@),
            ),
    {
        let ghost fs = fields_view(fields@);
        let mut ok = true;
        let mut i: usize = 0;
        while i < fields.len()
            invariant
                i <= fields@.len(),
                fs == fields_view(fields@),
                self.cap() == old(self).cap(),
                (self.data(), ok) == write_fields((old(self).data(), true), self.cap(), fs.take(i as int)),
            decreases fields@.len() - i,
        {
            assert(fs.take(i + 1).drop_last() == fs.take(i as int));
            assert(fs.take(i + 1).last() == fields@[i as int]@);
            if ok {
                let r = self.extend_from_slice(fields[i].as_slice());
                if r.is_none() {
                    ok = false;
                }
            }
            i = i + 1;
        }
        assert(fs.take(fields@.len() as int) == fs);
        ok
    }
}

/// Little-endian value of two bytes.
pub open spec fn spec_u16_le(lo: u8, hi: u8) -> u16 {
    (lo as int + 256 * (hi as int)) as u16
}

/// Little-endian encoding of a 16-bit value.
pub open spec fn spec_u16_bytes(v: u16) -> Seq<u8> {
    seq![(v % 256) as u8, (v / 256) as u8]
}

/// Decoding the little-endian encoding of a 16-bit value gives the value back.
pub proof fn lemma_u16_roundtrip(v: u16)
    ensures
        spec_u16_le(spec_u16_bytes(v)[0], spec_u16_bytes(v)[1]) == v,
{
}

/// Encoding a decoded little-endian pair gives the two bytes back.
pub proof fn lemma_u16_bytes_roundtrip(lo: u8, hi: u8)
    ensures
        spec_u16_bytes(spec_u16_le(lo, hi)) == seq![lo, hi],
{
}

/// Encodes a 16-bit value little-endian.
pub fn u16_to_le_bytes(v: u16) -> (r: Vec<u8>)
    ensures
        r@ == spec_u16_bytes(v),
{
    let mut r = Vec::new();
    r.push((v % 256) as u8);
    r.push((v / 256) as u8);
    r
}

/// Copies `len` bytes of `bytes` from `off` on.
pub fn copy_range(bytes: &[u8], off: usize, len: usize) -> (r: Vec<u8>)
    requires
        off + len <= bytes@.len(),
    ensures
        r@ == bytes@.subrange(off as int, off + len),
{
    let n = bytes.len();
    let mut r = Vec::new();
    let mut i: usize = 0;
    while i < len
        invariant
            i <= len,
            n == bytes@.len(),
            off + len <= bytes@.len(),
            r@ == bytes@.subrange(off as int, off + i),
        decreases len - i,
    {
        r.push(bytes[off + i]);
        i = i + 1;
        assert(r@ == bytes@.subrange(off as int, off + i));
    }
    r
}

} // verus!
