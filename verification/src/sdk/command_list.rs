//! Command lists: a header, then the commands one after another.
//!
//! The header's first word is the length of the commands in bytes; the second word is filled
//! with the completion flag's address when the list is submitted.

use vstd::prelude::*;
use core::marker::PhantomData;

verus! {

/// Bytes of the header in front of the commands.
pub const COMMANDLIST_HEADER_LENGTH: usize = 8;

/// The little-endian bytes of `x`.
pub open spec fn spec_u32_bytes(x: u32) -> Seq<u8> {
    seq![(x % 0x100) as u8, ((x / 0x100) % 0x100) as u8, ((x / 0x10000) % 0x100) as u8, (x / 0x1000000) as u8]
}

/// The little-endian bytes of `x`.
pub open spec fn spec_u16_bytes(x: u16) -> Seq<u8> {
    seq![(x % 0x100) as u8, (x / 0x100) as u8]
}

/// The little-endian bytes of `x`.
pub fn command_u32_bytes(x: u32) -> (r: [u8; 4])
    ensures
        r@ == spec_u32_bytes(x),
{
    let r = [(x >> 0u32) as u8, (x >> 8u32) as u8, (x >> 16u32) as u8, (x >> 24u32) as u8];
    proof {
        assert((x >> 0u32) as u8 == (x % 0x100) as u8 && (x >> 8u32) as u8 == ((x / 0x100) % 0x100) as u8
            && (x >> 16u32) as u8 == ((x / 0x10000) % 0x100) as u8 && (x >> 24u32) as u8 == (x / 0x1000000) as u8)
            by (bit_vector);
        assert(r@ =~= spec_u32_bytes(x));
    }
    r
}

/// The little-endian bytes of `x`.
pub fn command_u16_bytes(x: u16) -> (r: [u8; 2])
    ensures
        r@ == spec_u16_bytes(x),
{
    let r = [(x >> 0u16) as u8, (x >> 8u16) as u8];
    proof {
        assert((x >> 0u16) as u8 == (x % 0x100) as u8 && (x >> 8u16) as u8 == (x / 0x100) as u8) by (bit_vector);
        assert(r@ =~= spec_u16_bytes(x));
    }
    r
}

/// The number the four little-endian bytes `b` spell.
pub open spec fn spec_le_u32(b: Seq<u8>) -> int {
    b[0] + b[1] * 0x100 + b[2] * 0x10000 + b[3] * 0x1000000
}

/// The bytes of a 32-bit value spell it back, least significant first.
pub proof fn law_u32_bytes_round_trip(x: u32)
    ensures
        spec_le_u32(spec_u32_bytes(x)) == x,
{
    assert(((x % 0x100) as u8) as int + (((x / 0x100) % 0x100) as u8) as int * 0x100
        + (((x / 0x10000) % 0x100) as u8) as int * 0x10000 + ((x / 0x1000000) as u8) as int * 0x1000000 == x)
        by (bit_vector);
}

/// The bytes of a 16-bit value spell it back, least significant first.
pub proof fn law_u16_bytes_round_trip(x: u16)
    ensures
        spec_u16_bytes(x)[0] + spec_u16_bytes(x)[1] * 0x100 == x,
{
    assert(((x % 0x100) as u8) as int + ((x / 0x100) as u8) as int * 0x100 == x) by (bit_vector);
}

/// The 32-bit value the four bytes of `b` from `i` spell, least significant first.
pub open spec fn spec_u32_at(b: Seq<u8>, i: int) -> int {
    b[i] + b[i + 1] * 0x100 + b[i + 2] * 0x10000 + b[i + 3] * 0x1000000
}

/// The 16-bit value the two bytes of `b` from `i` spell, least significant first.
pub open spec fn spec_u16_at(b: Seq<u8>, i: int) -> int {
    b[i] + b[i + 1] * 0x100
}

/// Where the bytes of `x` stand in `b`, a reader finds `x`.
pub proof fn lemma_u32_at(b: Seq<u8>, i: int, x: u32)
    requires
        0 <= i,
        i + 4 <= b.len(),
        b.subrange(i, i + 4) == spec_u32_bytes(x),
    ensures
        spec_u32_at(b, i) == x,
{
    law_u32_bytes_round_trip(x);
    assert(b[i] == b.subrange(i, i + 4)[0] && b[i + 1] == b.subrange(i, i + 4)[1]
        && b[i + 2] == b.subrange(i, i + 4)[2] && b[i + 3] == b.subrange(i, i + 4)[3]);
}

/// Where the bytes of `x` stand in `b`, a reader finds `x`.
pub proof fn lemma_u16_at(b: Seq<u8>, i: int, x: u16)
    requires
        0 <= i,
        i + 2 <= b.len(),
        b.subrange(i, i + 2) == spec_u16_bytes(x),
    ensures
        spec_u16_at(b, i) == x,
{
    law_u16_bytes_round_trip(x);
    assert(b[i] == b.subrange(i, i + 2)[0] && b[i + 1] == b.subrange(i, i + 2)[1]);
}

/// What appending `command` to a list holding `written` with `room` bytes left does, when
/// `ok` tells whether it was appended: it is appended whenever it fits with a byte to spare,
/// and otherwise nothing changes.
pub open spec fn spec_push_outcome(written: Seq<u8>, room: nat, after_written: Seq<u8>, after_room: nat, command: Seq<u8>, ok: bool) -> bool {
    &&& command.len() < room ==> ok
    &&& ok ==> after_written == written + command
    &&& !ok ==> after_written == written && after_room == room
}

/// Something that collects commands: the bytes written so far and the room left.
pub trait CommandListBuilder<Commands>: Sized {
    /// The builder's own consistency.
    spec fn inv(&self) -> bool;

    /// The commands written so far, in order.
    spec fn written(&self) -> Seq<u8>;

    /// How many bytes are left in the buffer.
    spec fn room(&self) -> nat;

    /// Appends a command, always when it fits with a byte to spare; tells whether it did.
    fn push_command(&mut self, command_bytes: &[u8]) -> (r: bool)
        requires
            old(self).inv(),
        ensures
            final(self).inv(),
            command_bytes@.len() < old(self).room() ==> r,
            r ==> final(self).written() == old(self).written() + command_bytes@,
            !r ==> final(self).written() == old(self).written() && final(self).room() == old(self).room(),
    ;
}

/// A finished command list: its bytes, header included.
pub struct StaticCommandList<Commands>(pub Vec<u8>, pub PhantomData<Commands>);

/// Builds a command list in a buffer of fixed size.
pub struct StaticCommandListBuilder<Commands> {
    buffer: Vec<u8>,
    offset: usize,
    _phantom_command: PhantomData<Commands>,
}

impl<Commands> StaticCommandListBuilder<Commands> {

    /// The whole buffer.
    pub closed spec fn spec_buffer(&self) -> Seq<u8> {
        self.buffer@
    }

    /// A builder writing its commands after the header in `buffer`.
    pub fn new(buffer: Vec<u8>) -> (r: Self)
        requires
            buffer@.len() >= COMMANDLIST_HEADER_LENGTH,
        ensures
            r.inv(),
            r.written() == Seq::<u8>::empty(),
            r.room() == buffer@.len() - COMMANDLIST_HEADER_LENGTH,
            r.spec_buffer() == buffer@,
    {
        Self { buffer, offset: COMMANDLIST_HEADER_LENGTH, _phantom_command: PhantomData }
    }

    /// The list: the length of the commands in the first header word, the commands after
    /// the header, and the rest of the buffer as it was.
    pub fn finish(self) -> (r: StaticCommandList<Commands>)
        requires
            self.inv(),
        ensures
            r.0@.len() == self.spec_buffer().len(),
            r.0@.subrange(0, 4) == spec_u32_bytes(self.written().len() as u32),
            r.0@.subrange(4, self.spec_buffer().len() as int) == self.spec_buffer().subrange(4, self.spec_buffer().len() as int),
            r.0@.subrange(8, 8 + self.written().len() as int) == self.written(),
    {
        let mut buffer = self.buffer;
        let length = command_u32_bytes((self.offset - 8) as u32);
        let ghost before = buffer@;
        buffer.set(0, length[0]);
        buffer.set(1, length[1]);
        buffer.set(2, length[2]);
        buffer.set(3, length[3]);
        proof {
            assert(buffer@.subrange(0, 4) =~= spec_u32_bytes(self.written().len() as u32));
            assert(buffer@.subrange(4, before.len() as int) =~= before.subrange(4, before.len() as int));
            assert(buffer@.subrange(8, 8 + self.written().len() as int) =~= self.written());
        }
        StaticCommandList(buffer, PhantomData)
    }
}

impl<Commands> CommandListBuilder<Commands> for StaticCommandListBuilder<Commands> {
    /// What is written ends after the header and inside the buffer.
    closed spec fn inv(&self) -> bool {
        COMMANDLIST_HEADER_LENGTH <= self.offset <= self.buffer@.len()
    }

    closed spec fn written(&self) -> Seq<u8> {
        self.buffer@.subrange(COMMANDLIST_HEADER_LENGTH as int, self.offset as int)
    }

    closed spec fn room(&self) -> nat {
        (self.buffer@.len() - self.offset) as nat
    }

    fn push_command(&mut self, data: &[u8]) -> (r: bool)
        ensures
            r == (data@.len() < old(self).room()),
            r ==> final(self).room() == old(self).room() - data@.len(),
    {
        let data_len = data.len();
        if data_len < self.buffer.len() - self.offset {
            let ghost before = self.buffer@;
            let blen = self.buffer.len();
            let start = self.offset;
            let mut k: usize = 0;
            while k < data_len
                invariant
                    k <= data_len,
                    data_len == data@.len(),
                    start == self.offset,
                    start + data_len < self.buffer@.len(),
                    self.buffer@.len() == before.len(),
                    before.len() == blen,
                    COMMANDLIST_HEADER_LENGTH <= start,
                    forall|j: int| 0 <= j < start ==> self.buffer@[j] == before[j],
                    forall|j: int| 0 <= j < k ==> self.buffer@[start + j] == data@[j],
                decreases data_len - k,
            {
                self.buffer.set(start + k, data[k]);
                k = k + 1;
            }
            self.offset = start + data_len;
            proof {
                assert(self.buffer@.subrange(COMMANDLIST_HEADER_LENGTH as int, self.offset as int)
                    =~= before.subrange(COMMANDLIST_HEADER_LENGTH as int, start as int) + data@);
            }
            true
        } else {
            false
        }
    }
}

} // verus!
