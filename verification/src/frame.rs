//! Framing of register accesses.
//!
//! A command byte is a marker in the three high bits and a register address
//! in the five low bits. The device answers a read with one byte of latency,
//! so a read frame is padded with filler bytes and the value arrives in the
//! last position.
use vstd::prelude::*;

verus! {

/// Marker of a write command.
pub const WRITE_BITS: u8 = 0x80;

/// Marker of a read command.
pub const READ_BITS: u8 = 0xA0;

/// The bits of a command byte that carry the register address.
pub const ADDR_MASK: u8 = 0x1F;

/// Filler sent in the last position of a read: the device ends the read.
pub const READ_FILL: u8 = 0xFB;

/// Filler sent while more bytes are wanted: the device moves on to the next
/// register.
pub const READ_CONTINUE: u8 = 0xFC;

/// Time the device needs after a status-clearing write before it takes the
/// next command, in nanoseconds (50 microseconds).
pub const SETTLE_DELAY_NS: u32 = 50_000;

/// The command byte that reads the register at `addr`.
pub open spec fn read_command_spec(addr: u8) -> u8 {
    READ_BITS | (addr & ADDR_MASK)
}

/// The command byte that writes the register at `addr`.
pub open spec fn write_command_spec(addr: u8) -> u8 {
    WRITE_BITS | (addr & ADDR_MASK)
}

/// The frame of a single-register read.
pub open spec fn read_frame_spec(addr: u8) -> Seq<u8> {
    seq![read_command_spec(addr), READ_FILL, READ_FILL, READ_FILL]
}

/// The frame of a single-register write.
pub open spec fn write_frame_spec(addr: u8, value: u8) -> Seq<u8> {
    seq![write_command_spec(addr), value]
}

/// The first sub-transfer of a block read.
pub open spec fn block_header_spec(addr: u8) -> Seq<u8> {
    seq![read_command_spec(addr), READ_CONTINUE, READ_CONTINUE]
}

/// The second sub-transfer of a block read of `n` bytes: continuation
/// markers, closed by one fill marker.
pub open spec fn block_fill_spec(n: nat) -> Seq<u8> {
    Seq::new(
        n,
        |i: int|
            if i == n - 1 {
                READ_FILL
            } else {
                READ_CONTINUE
            },
    )
}

/// A command byte is its marker in the three high bits and the address in
/// the five low bits; for an address that fits five bits it is the sum of the
/// two.
pub proof fn lemma_command_bytes(addr: u8)
    ensures
        read_command_spec(addr) & 0xE0 == READ_BITS,
        write_command_spec(addr) & 0xE0 == WRITE_BITS,
        read_command_spec(addr) & ADDR_MASK == addr & ADDR_MASK,
        write_command_spec(addr) & ADDR_MASK == addr & ADDR_MASK,
        read_command_spec(addr) == READ_BITS + addr % 32,
        write_command_spec(addr) == WRITE_BITS + addr % 32,
        addr <= 0x1F ==> read_command_spec(addr) == READ_BITS + addr,
        addr <= 0x1F ==> write_command_spec(addr) == WRITE_BITS + addr,
{
    assert((0xA0u8 | (addr & 0x1F)) & 0xE0 == 0xA0 && (0xA0u8 | (addr & 0x1F)) & 0x1F == addr
        & 0x1F && (0xA0u8 | (addr & 0x1F)) == 0xA0 + addr % 32 && (addr <= 0x1F ==> addr % 32
        == addr)) by (bit_vector);
    assert((0x80u8 | (addr & 0x1F)) & 0xE0 == 0x80 && (0x80u8 | (addr & 0x1F)) & 0x1F == addr
        & 0x1F && (0x80u8 | (addr & 0x1F)) == 0x80 + addr % 32) by (bit_vector);
}

/// Builds the command byte that reads the register at `addr`. Only the five
/// low bits of `addr` are used.
pub fn read_command(addr: u8) -> (c: u8)
    ensures
        c == read_command_spec(addr),
        c & 0xE0 == READ_BITS,
        c & ADDR_MASK == addr & ADDR_MASK,
        c == READ_BITS + addr % 32,
{
    proof {
        lemma_command_bytes(addr);
    }
    READ_BITS | (addr & ADDR_MASK)
}

/// Builds the command byte that writes the register at `addr`. Only the five
/// low bits of `addr` are used.
pub fn write_command(addr: u8) -> (c: u8)
    ensures
        c == write_command_spec(addr),
        c & 0xE0 == WRITE_BITS,
        c & ADDR_MASK == addr & ADDR_MASK,
        c == WRITE_BITS + addr % 32,
{
    proof {
        lemma_command_bytes(addr);
    }
    WRITE_BITS | (addr & ADDR_MASK)
}

/// Builds the frame of a single-register read: the command and three fill
/// markers. The value arrives in the place of the last one.
pub fn read_frame(addr: u8) -> (f: [u8; 4])
    ensures
        f@ == read_frame_spec(addr),
        f@ == seq![(READ_BITS + addr % 32) as u8, READ_FILL, READ_FILL, READ_FILL],
{
    let f: [u8; 4] = [read_command(addr), READ_FILL, READ_FILL, READ_FILL];
    assert(f@ =~= read_frame_spec(addr));
    f
}

/// Builds the frame of a single-register write: the command and the value.
pub fn write_frame(addr: u8, value: u8) -> (f: [u8; 2])
    ensures
        f@ == write_frame_spec(addr, value),
        f@ == seq![(WRITE_BITS + addr % 32) as u8, value],
{
    let f: [u8; 2] = [write_command(addr), value];
    assert(f@ =~= write_frame_spec(addr, value));
    f
}

/// Builds the first sub-transfer of a block read: the command and two
/// continuation markers.
pub fn block_header(addr: u8) -> (f: [u8; 3])
    ensures
        f@ == block_header_spec(addr),
        f@ == seq![(READ_BITS + addr % 32) as u8, READ_CONTINUE, READ_CONTINUE],
{
    let f: [u8; 3] = [read_command(addr), READ_CONTINUE, READ_CONTINUE];
    assert(f@ =~= block_header_spec(addr));
    f
}

/// Builds the second sub-transfer of a block read of `N` bytes: every
/// position holds the continuation marker but the last, which holds the fill
/// marker.
pub fn block_fill<const N: usize>() -> (f: [u8; N])
    requires
        N >= 1,
    ensures
        f@ == block_fill_spec(N as nat),
        f@.len() == N,
        f@[N - 1] == READ_FILL,
        forall|i: int| 0 <= i < N - 1 ==> f@[i] == READ_CONTINUE,
{
    let mut f: [u8; N] = [READ_CONTINUE; N];
    f[N - 1] = READ_FILL;
    assert(f@ =~= block_fill_spec(N as nat));
    f
}

} // verus!
