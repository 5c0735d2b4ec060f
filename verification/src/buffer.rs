//! The byte buffer that carries a request or a reply.
//!
//! A buffer is a run of bytes with a limit on its length and a cursor that
//! marks how far it has been read. Writing appends; reading takes bytes from
//! the cursor on and moves the cursor behind them. What the bytes mean is no
//! concern of this crate.

use vstd::prelude::*;

verus! {

/// What a `Buffer` holds, as a mathematical value.
pub struct BufferView {
    /// The bytes written so far, oldest first.
    pub bytes: Seq<u8>,
    /// How many of the bytes have been read.
    pub read_pos: nat,
    /// How many bytes the buffer accepts in all.
    pub capacity: nat,
}

impl BufferView {
    /// The cursor lies within the bytes, and the bytes within the capacity.
    pub open spec fn wf(self) -> bool {
        self.read_pos <= self.bytes.len() <= self.capacity
    }

    /// The bytes that have not been read yet.
    pub open spec fn unread(self) -> Seq<u8> {
        self.bytes.subrange(self.read_pos as int, self.bytes.len() as int)
    }

    /// Whether `n` more bytes can be read.
    pub open spec fn can_read(self, n: nat) -> bool {
        self.read_pos + n <= self.bytes.len()
    }

    /// Whether `n` more bytes can be written.
    pub open spec fn can_write(self, n: nat) -> bool {
        self.bytes.len() + n <= self.capacity
    }

    /// This buffer after `n` more bytes have been read.
    pub open spec fn after_read(self, n: nat) -> BufferView {
        BufferView { read_pos: self.read_pos + n, ..self }
    }

    /// This buffer after `data` has been written to it.
    pub open spec fn after_write(self, data: Seq<u8>) -> BufferView {
        BufferView { bytes: self.bytes + data, ..self }
    }
}

/// A bounded byte buffer with a read cursor.
pub struct Buffer {
    data: Vec<u8>,
    read_pos: usize,
    capacity: usize,
}

impl View for Buffer {
    type V = BufferView;

    closed spec fn view(&self) -> BufferView {
        BufferView {
            bytes: self.data@,
            read_pos: self.read_pos as nat,
            capacity: self.capacity as nat,
        }
    }
}

impl Buffer {
    /// Holds of every buffer that a program can hold.
    #[verifier::type_invariant]
    pub open spec fn wf(self) -> bool {
        self@.wf()
    }

    /// An empty buffer that accepts up to `capacity` bytes.
    pub fn new(capacity: usize) -> (buffer: Buffer)
        ensures
            buffer@ == (BufferView {
                bytes: Seq::<u8>::empty(),
                read_pos: 0,
                capacity: capacity as nat,
            }),
    {
        Buffer { data: Vec::new(), read_pos: 0, capacity }
    }

    /// The number of bytes written so far.
    pub fn get_data_size(&self) -> (size: usize)
        ensures
            size == self@.bytes.len(),
    {
        self.data.len()
    }

    /// The number of bytes the buffer accepts in all.
    pub fn get_capacity(&self) -> (capacity: usize)
        ensures
            capacity == self@.capacity,
    {
        self.capacity
    }

    /// The position of the read cursor.
    pub fn get_read_position(&self) -> (pos: usize)
        ensures
            pos == self@.read_pos,
    {
        self.read_pos
    }

    /// All the bytes written so far, read or not.
    pub fn as_slice(&self) -> (bytes: &[u8])
        ensures
            bytes@ == self@.bytes,
    {
        self.data.as_slice()
    }

    /// Reads the next `len` bytes and moves the cursor behind them. Where
    /// fewer than `len` bytes are left to read, nothing is read and the
    /// buffer stays as it was.
    pub fn read_buffer(&mut self, len: usize) -> (r: Option<Vec<u8>>)
        ensures
            r is Some <==> old(self)@.can_read(len as nat),
            r matches Some(bytes) ==> {
                &&& bytes@ == old(self)@.unread().take(len as int)
                &&& final(self)@ == old(self)@.after_read(len as nat)
            },
            r is None ==> *final(self) == *old(self),
    {
        proof {
            use_type_invariant(&*self);
        }
        if len > self.data.len() - self.read_pos {
            return None;
        }
        let start: usize = self.read_pos;
        let mut bytes: Vec<u8> = Vec::new();
        let mut i: usize = 0;
        while i < len
            invariant
                i <= len,
                start + len <= self.data.len(),
                bytes@ == self.data@.subrange(start as int, start + i),
            decreases len - i,
        {
            bytes.push(self.data[start + i]);
            i = i + 1;
        }
        self.read_pos = start + len;
        Some(bytes)
    }

    /// Appends `data`. Where the capacity does not allow for all of `data`,
    /// nothing is written, the buffer stays as it was and the answer is
    /// `false`.
    pub fn write_buffer(&mut self, data: &[u8]) -> (written: bool)
        ensures
            written <==> old(self)@.can_write(data@.len()),
            written ==> final(self)@ == old(self)@.after_write(data@),
            !written ==> *final(self) == *old(self),
    {
        proof {
            use_type_invariant(&*self);
        }
        if data.len() > self.capacity - self.data.len() {
            return false;
        }
        // The bytes leave the buffer while they grow, so that the buffer is
        // never seen with more bytes than its capacity or its cursor allow.
        let pos: usize = self.read_pos;
        let mut bytes: Vec<u8> = Vec::new();
        self.read_pos = 0;
        core::mem::swap(&mut self.data, &mut bytes);
        let mut i: usize = 0;
        while i < data.len()
            invariant
                i <= data@.len(),
                bytes@ == old(self).data@ + data@.take(i as int),
            decreases data@.len() - i,
        {
            bytes.push(data[i]);
            i = i + 1;
        }
        assert(data@.take(i as int) == data@);
        core::mem::swap(&mut self.data, &mut bytes);
        self.read_pos = pos;
        true
    }

    /// Moves the read cursor to `pos`. Where `pos` lies beyond the bytes
    /// written, the cursor stays where it was and the answer is `false`.
    pub fn rewind_read(&mut self, pos: usize) -> (moved: bool)
        ensures
            moved <==> pos <= old(self)@.bytes.len(),
            moved ==> final(self)@ == (BufferView { read_pos: pos as nat, ..old(self)@ }),
            !moved ==> *final(self) == *old(self),
    {
        proof {
            use_type_invariant(&*self);
        }
        if pos <= self.data.len() {
            self.read_pos = pos;
            true
        } else {
            false
        }
    }
}

} // verus!
