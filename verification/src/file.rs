//! What a file is opened with, and the buffers that its reads and writes go
//! through.

use vstd::prelude::*;

verus! {

/// The size of the unit in which a file is read and written, in bytes. The
/// length of every [`DmaBuffer`] is a multiple of it.
pub const CHUNK_SIZE: usize = 4096;

/// A buffer that stores or receives the data of an I/O operation. Its
/// length is a whole number of chunks.
#[derive(Debug)]
pub struct DmaBuffer {
    bytes: Vec<u8>,
}

impl View for DmaBuffer {
    type V = Seq<u8>;

    /// A buffer is the bytes it holds.
    closed spec fn view(&self) -> Seq<u8> {
        self.bytes@
    }
}

impl DmaBuffer {
    /// The length of the buffer is a whole number of chunks.
    pub open spec fn wf(&self) -> bool {
        self@.len() % CHUNK_SIZE as nat == 0
    }

    /// A buffer that holds a copy of `bytes`, whose length must be a whole
    /// number of chunks.
    pub fn from_slice(bytes: &[u8]) -> (buffer: Self)
        requires
            bytes@.len() % CHUNK_SIZE as nat == 0,
        ensures
            buffer@ == bytes@,
            buffer.wf(),
    {
        let mut copy: Vec<u8> = Vec::new();
        let mut i: usize = 0;
        while i < bytes.len()
            invariant
                i <= bytes@.len(),
                copy@ == bytes@.take(i as int),
            decreases bytes@.len() - i,
        {
            copy.push(bytes[i]);
            i = i + 1;
            assert(copy@ =~= bytes@.take(i as int));
        }
        assert(bytes@.take(i as int) =~= bytes@);
        DmaBuffer { bytes: copy }
    }

    /// Overwrites the buffer with `bytes`, which must be as long as the
    /// buffer.
    pub fn copy_from_slice(&mut self, bytes: &[u8]) -> (buffer: &mut Self)
        requires
            bytes@.len() == old(self)@.len(),
        ensures
            buffer@ == bytes@,
            *final(self) == *final(buffer),
    {
        let mut i: usize = 0;
        while i < bytes.len()
            invariant
                i <= bytes@.len(),
                self.bytes@.len() == bytes@.len(),
                self.bytes@.take(i as int) == bytes@.take(i as int),
            decreases bytes@.len() - i,
        {
            self.bytes.set(i, bytes[i]);
            i = i + 1;
            assert(self.bytes@.take(i as int) =~= bytes@.take(i as int));
        }
        assert(self.bytes@.take(i as int) =~= self.bytes@);
        assert(bytes@.take(i as int) =~= bytes@);
        self
    }

    /// The number of bytes in the buffer.
    pub fn len(&self) -> (n: usize)
        ensures
            n == self@.len(),
    {
        self.bytes.len()
    }

    /// The byte at `idx`, which must lie within the buffer.
    pub fn index(&self, idx: usize) -> (byte: u8)
        requires
            idx < self@.len(),
        ensures
            byte == self@[idx as int],
    {
        self.bytes[idx]
    }

    /// The bytes of the buffer, to be overwritten in place.
    pub fn as_mut_slice(&mut self) -> (bytes: &mut [u8])
        ensures
            bytes@ == old(self)@,
            final(self)@ == final(bytes)@,
    {
        self.bytes.as_mut_slice()
    }

    /// The bytes of the buffer.
    pub fn as_slice(&self) -> (bytes: &[u8])
        ensures
            bytes@ == self@,
    {
        self.bytes.as_slice()
    }
}

/// Interface modelled after `std::fs::OpenOptions`: what a file is to be
/// opened for.
#[derive(Clone, Copy, Debug, PartialEq, Eq, Structural)]
pub struct OpenOptions {
    read: bool,
    write: bool,
    create: bool,
}

/// The three flags of an [`OpenOptions`].
pub struct Flags {
    pub read: bool,
    pub write: bool,
    pub create: bool,
}

impl View for OpenOptions {
    type V = Flags;

    closed spec fn view(&self) -> Flags {
        Flags { read: self.read, write: self.write, create: self.create }
    }
}

impl OpenOptions {
    /// Creates a new `OpenOptions` struct with no flag set.
    pub fn new() -> (opts: Self)
        ensures
            opts@ == (Flags { read: false, write: false, create: false }),
    {
        Self { read: false, write: false, create: false }
    }

    /// Sets the flag `read`, which allows to read from a file.
    pub fn read(&mut self, flag: bool) -> (opts: &mut Self)
        ensures
            opts@ == (Flags { read: flag, ..old(self)@ }),
            *final(self) == *final(opts),
    {
        self.read = flag;
        self
    }

    /// Sets the flag `write`, which allows to write to a file.
    pub fn write(&mut self, flag: bool) -> (opts: &mut Self)
        ensures
            opts@ == (Flags { write: flag, ..old(self)@ }),
            *final(self) == *final(opts),
    {
        self.write = flag;
        self
    }

    /// Sets the flag `create`, which allows to create a new file.
    pub fn create(&mut self, flag: bool) -> (opts: &mut Self)
        ensures
            opts@ == (Flags { create: flag, ..old(self)@ }),
            *final(self) == *final(opts),
    {
        self.create = flag;
        self
    }

    /// Getter for the `read` flag.
    pub fn get_read(&self) -> (flag: bool)
        ensures
            flag == self@.read,
    {
        self.read
    }

    /// Getter for the `write` flag.
    pub fn get_write(&self) -> (flag: bool)
        ensures
            flag == self@.write,
    {
        self.write
    }

    /// Getter for the `create` flag.
    pub fn get_create(&self) -> (flag: bool)
        ensures
            flag == self@.create,
    {
        self.create
    }
}

impl Default for OpenOptions {
    fn default() -> (opts: Self)
        ensures
            opts@ == (Flags { read: false, write: false, create: false }),
    {
        Self::new()
    }
}

} // verus!
