//! A pipe: a byte buffer held in memory, used in place of a file for the
//! standard streams of a system-interface guest. Writes append at the end;
//! reads take bytes from the front.
use vstd::prelude::*;

verus! {

/// An in-memory pipe. Its view is the bytes it holds, oldest first.
#[derive(Debug, Default)]
pub struct Pipe {
    buffer: Vec<u8>,
}

impl View for Pipe {
    type V = Seq<u8>;

    closed spec fn view(&self) -> Seq<u8> {
        self.buffer@
    }
}

/// `len` zero bytes.
pub open spec fn zeros(len: nat) -> Seq<u8> {
    Seq::new(len, |i: int| 0u8)
}

impl Pipe {
    /// An empty pipe.
    pub fn new() -> (r: Pipe)
        ensures
            r@ == Seq::<u8>::empty(),
    {
        Pipe { buffer: Vec::new() }
    }

    /// The bytes the pipe holds.
    pub fn borrow(&self) -> (r: &Vec<u8>)
        ensures
            r@ == self@,
    {
        &self.buffer
    }

    /// The number of bytes the pipe holds.
    pub fn size(&self) -> (r: u64)
        ensures
            r == self@.len(),
    {
        self.buffer.len() as u64
    }

    /// Cuts the pipe to `len` bytes, or pads it with zero bytes up to `len`.
    pub fn set_len(&mut self, len: u64)
        requires
            len <= usize::MAX,
        ensures
            len <= old(self)@.len() ==> final(self)@ == old(self)@.subrange(0, len as int),
            len > old(self)@.len() ==> final(self)@ == old(self)@ + zeros(
                (len - old(self)@.len()) as nat,
            ),
    {
        let ghost before = self.buffer@;
        self.buffer.resize(len as usize, 0u8);
        proof {
            if len > before.len() {
                let padded = before + zeros((len - before.len()) as nat);
                assert forall|i: int| 0 <= i < self.buffer@.len() implies self.buffer@[i]
                    == padded[i] by {
                    if i < before.len() {
                        assert(self.buffer@.subrange(0, before.len() as int)[i] == self.buffer@[i]);
                    }
                }
                assert(self.buffer@ =~= padded);
            }
        }
    }

    /// Takes up to `max` bytes from the front of the pipe, as many as it holds.
    pub fn read(&mut self, max: usize) -> (r: Vec<u8>)
        ensures
            r@.len() == if max < old(self)@.len() {
                max as int
            } else {
                old(self)@.len() as int
            },
            r@ == old(self)@.subrange(0, r@.len() as int),
            final(self)@ == old(self)@.subrange(r@.len() as int, old(self)@.len() as int),
    {
        let amount: usize = if max < self.buffer.len() {
            max
        } else {
            self.buffer.len()
        };
        let mut rest = self.buffer.split_off(amount);
        std::mem::swap(&mut self.buffer, &mut rest);
        rest
    }

    /// Appends `data` at the end of the pipe and reports how many bytes it took.
    pub fn write(&mut self, data: &[u8]) -> (r: usize)
        ensures
            final(self)@ == old(self)@ + data@,
            r == data@.len(),
    {
        let ghost before = self.buffer@;
        self.buffer.extend_from_slice(data);
        assert(self.buffer@ =~= before + data@);
        data.len()
    }
}

} // verus!

verus! {

/// std::sync::Mutex, carried opaquely: nothing here looks inside a lock.
#[verifier::external_type_specification]
#[verifier::external_body]
#[verifier::reject_recursive_types(T)]
pub struct ExMutex<T: ?Sized>(std::sync::Mutex<T>);

/// Relies on std::sync::Mutex::new, which wraps a value in an unlocked lock.
#[verifier::external_body]
fn guard_pipe(pipe: Pipe) -> (r: std::sync::Mutex<Pipe>) {
    std::sync::Mutex::new(pipe)
}

/// A pipe shared between the host and a guest's standard streams; every use
/// takes the lock.
pub struct PipeResource {
    pub pipe: std::sync::Mutex<Pipe>,
}

impl PipeResource {
    /// A shared pipe that starts out empty.
    pub fn new() -> (r: PipeResource) {
        PipeResource { pipe: guard_pipe(Pipe::new()) }
    }
}

} // verus!
