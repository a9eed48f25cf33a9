//! The memory of the machine: one array of bytes with named regions.
//!
//! Addresses are `u16`, as on the CHIP-8; lengths are `usize`.
//!
//! ```text
//! 4K configuration:
//!   0x0000-0x01ff  interpreter
//!   0x0200-0x0e9f  program
//!   0x0ea0-0x0ecf  stack
//!   0x0ed0-0x0eef  work area
//!   0x0ef0-0x0eff  chip-8 variables
//!   0x0f00-0x0fff  display
//! ```
//!
//! CHIP-8 programs should not touch the regions above the program directly.
use crate::error::Chip8Error;
use vstd::prelude::*;

verus! {

/// How much RAM the machine has.
pub const CHIP8_RAM_SIZE_BYTES: u16 = 4096;

/// Distance of the top of the stack from the top of RAM; the stack grows
/// downward into program memory.
pub const CHIP8_STACK_OFFSET: u16 = 0x0132;

/// Distance of the sprite work area from the top of RAM.
pub const CHIP8_WORK_OFFSET: u16 = 0x0130;

/// Distance of the variables V0..VF from the top of RAM.
pub const CHIP8_VAR_OFFSET: u16 = 0x0110;

/// Distance of the display buffer from the top of RAM.
pub const CHIP8_DISPLAY_OFFSET: u16 = 0x0100;

/// Where programs are loaded.
pub const CHIP8_PROGRAM_ADDR: u16 = 0x0200;

/// The top of the stack in the 4K configuration.
pub const CHIP8_STACK_ADDR: u16 = CHIP8_RAM_SIZE_BYTES - CHIP8_STACK_OFFSET;

/// The sprite work area in the 4K configuration.
pub const CHIP8_WORK_ADDR: u16 = CHIP8_RAM_SIZE_BYTES - CHIP8_WORK_OFFSET;

/// The variables in the 4K configuration.
pub const CHIP8_VAR_ADDR: u16 = CHIP8_RAM_SIZE_BYTES - CHIP8_VAR_OFFSET;

/// The display buffer in the 4K configuration.
pub const CHIP8_DISPLAY_ADDR: u16 = CHIP8_RAM_SIZE_BYTES - CHIP8_DISPLAY_OFFSET;

/// The size of the display buffer: 64 by 32 pixels, one bit each.
pub const CHIP8_DISPLAY_SIZE_BYTES: usize = 0x100;

/// The size of the sprite work area: two bytes for each of up to 16 rows.
pub const CHIP8_WORK_SIZE_BYTES: usize = 32;

/// Where the interpreter stub is loaded.
pub const CHIP8_INTERPRETER_STUB_ADDR: u16 = 0x0100;

/// The second page of the VIP's CHIP-8 interpreter, from the COSMAC VIP
/// manual.  Nothing executes it here; the random number instruction reads it
/// as its table of pseudo-random bytes, as the real interpreter does.
pub const CHIP8_INTERPRETER_STUB: [u8; 0x100] = [
    0x00, 0x00, 0x00, 0x00, 0x00, 0x45, 0xa3, 0x98, 0x56, 0xd4, 0xf8, 0x81, 0xbc, 0xf8, 0x95, 0xac,
    0x22, 0xdc, 0x12, 0x56, 0xd4, 0x06, 0xb8, 0xd4, 0x06, 0xa8, 0xd4, 0x64, 0x0a, 0x01, 0xe6, 0x8a,
    0xf4, 0xaa, 0x3b, 0x28, 0x9a, 0xfc, 0x01, 0xba, 0xd4, 0xf8, 0x91, 0xba, 0x06, 0xfa, 0x0f, 0xaa,
    0x0a, 0xaa, 0xd5, 0xe6, 0x06, 0xbf, 0x93, 0xbe, 0xf8, 0x1b, 0xae, 0x2a, 0x1a, 0xf8, 0x00, 0x5a,
    0x0e, 0xf5, 0x3b, 0x4b, 0x56, 0x0a, 0xfc, 0x01, 0x5a, 0x30, 0x40, 0x4e, 0xf6, 0x3b, 0x3c, 0x9f,
    0x56, 0x2a, 0x2a, 0xd4, 0x00, 0x22, 0x86, 0x52, 0xf8, 0xf0, 0xa7, 0x07, 0x5a, 0x87, 0xf3, 0x17,
    0x1a, 0x3a, 0x5b, 0x12, 0xd4, 0x22, 0x86, 0x52, 0xf8, 0xf0, 0xa7, 0x0a, 0x57, 0x87, 0xf3, 0x17,
    0x1a, 0x3a, 0x6b, 0x12, 0xd4, 0x15, 0x85, 0x22, 0x73, 0x95, 0x52, 0x25, 0x45, 0xa5, 0x86, 0xfa,
    0x0f, 0xb5, 0xd4, 0x45, 0xe6, 0xf3, 0x3a, 0x82, 0x15, 0x15, 0xd4, 0x45, 0xe6, 0xf3, 0x3a, 0x88,
    0xd4, 0x45, 0x07, 0x30, 0x8c, 0x45, 0x07, 0x30, 0x84, 0xe6, 0x62, 0x26, 0x45, 0xa3, 0x36, 0x88,
    0xd4, 0x3e, 0x88, 0xd4, 0xf8, 0xf0, 0xa7, 0xe7, 0x45, 0xf4, 0xa5, 0x86, 0xfa, 0x0f, 0x3b, 0xb2,
    0xfc, 0x01, 0xb5, 0xd4, 0x45, 0x56, 0xd4, 0x45, 0xe6, 0xf4, 0x56, 0xd4, 0x45, 0xfa, 0x0f, 0x3a,
    0xc4, 0x07, 0x56, 0xd4, 0xaf, 0x22, 0xf8, 0xd3, 0x73, 0x8f, 0xf9, 0xf0, 0x52, 0xe6, 0x07, 0xd2,
    0x56, 0xf8, 0xff, 0xa6, 0xf8, 0x00, 0x7e, 0x56, 0xd4, 0x19, 0x89, 0xae, 0x93, 0xbe, 0x99, 0xee,
    0xf4, 0x56, 0x76, 0xe6, 0xf4, 0xb9, 0x56, 0x45, 0xf2, 0x56, 0xd4, 0x45, 0xaa, 0x86, 0xfa, 0x0f,
    0xba, 0xd4, 0x00, 0x00, 0x00, 0x00, 0x00, 0x00, 0x00, 0x00, 0x00, 0x00, 0x00, 0xe0, 0x00, 0x4b,
];

/// `mem` with the bytes from `addr` on replaced by `data`.
pub open spec fn splice(mem: Seq<u8>, addr: int, data: Seq<u8>) -> Seq<u8>
    recommends
        0 <= addr,
        addr + data.len() <= mem.len(),
{
    mem.subrange(0, addr) + data + mem.subrange(addr + data.len(), mem.len() as int)
}

/// The big-endian 16-bit word at `addr` and `addr + 1`.
pub open spec fn word_at(mem: Seq<u8>, addr: int) -> int
    recommends
        0 <= addr,
        addr + 2 <= mem.len(),
{
    mem[addr] * 256 + mem[addr + 1]
}

/// What memory holds before a program is loaded: the interpreter stub in the
/// second page and zeros everywhere else.
pub open spec fn initial_memory() -> Seq<u8> {
    Seq::new(
        CHIP8_RAM_SIZE_BYTES as nat,
        |k: int|
            if CHIP8_INTERPRETER_STUB_ADDR <= k < CHIP8_INTERPRETER_STUB_ADDR + 0x100 {
                CHIP8_INTERPRETER_STUB@[k - CHIP8_INTERPRETER_STUB_ADDR]
            } else {
                0u8
            },
    )
}

/// Every element of `splice` is either a byte of `data` or the byte that was
/// there before, and the length does not change.
pub proof fn lemma_splice(mem: Seq<u8>, addr: int, data: Seq<u8>)
    requires
        0 <= addr,
        addr + data.len() <= mem.len(),
    ensures
        splice(mem, addr, data).len() == mem.len(),
        forall|k: int|
            0 <= k < mem.len() ==> #[trigger] splice(mem, addr, data)[k] == if addr <= k < addr
                + data.len() {
                data[k - addr]
            } else {
                mem[k]
            },
{
}

/// Represents a memory map: ROM, RAM and the like, addressed by bytes.
pub trait MemoryMap {
    /// The bytes of the memory, from address 0 up.
    spec fn contents(&self) -> Seq<u8>;

    /// Whether `self` differs from `before` in nothing but its bytes.
    spec fn same_layout(&self, before: &Self) -> bool;

    /// Writes all of `data` into memory at `addr`.
    fn write_any(&mut self, data: &[u8], addr: u16) -> (r: Result<(), Chip8Error>)
        ensures
            r is Ok <==> addr + data@.len() <= old(self).contents().len(),
            r is Err ==> r == Err::<(), Chip8Error>(Chip8Error::OutOfBounds),
            r is Err ==> final(self).contents() == old(self).contents(),
            r is Ok ==> final(self).contents() == splice(old(self).contents(), addr as int, data@),
            final(self).same_layout(old(self)),
    {
        let len = data.len();
        let r = self.write(data, addr, len);
        proof {
            assert(data@.take(len as int) =~= data@);
        }
        r
    }

    /// Writes a chunk of bytes into memory: the first `len` bytes of `data`,
    /// or all of `data` where it is shorter than `len`.  The whole range of
    /// `len` bytes from `addr` has to lie inside memory.
    fn write(&mut self, data: &[u8], addr: u16, len: usize) -> (r: Result<(), Chip8Error>)
        ensures
            r is Ok <==> addr + len <= old(self).contents().len(),
            r is Err ==> r == Err::<(), Chip8Error>(Chip8Error::OutOfBounds),
            r is Err ==> final(self).contents() == old(self).contents(),
            r is Ok ==> final(self).contents() == splice(
                old(self).contents(),
                addr as int,
                data@.take(if len <= data@.len() { len as int } else { data@.len() as int }),
            ),
            final(self).same_layout(old(self)),
    {
        let ghost before = self.contents();
        let n: usize = if len <= data.len() { len } else { data.len() };
        let bytes = self.get_rw_slice(addr, len)?;
        let ghost window = bytes@;
        let mut k: usize = 0;
        while k < n
            invariant
                k <= n <= len,
                n <= data@.len(),
                bytes@.len() == len,
                window.len() == len,
                forall|j: int| 0 <= j < k ==> bytes@[j] == data@[j],
                forall|j: int| k <= j < len ==> bytes@[j] == window[j],
            decreases n - k,
        {
            bytes[k] = data[k];
            k += 1;
        }
        proof {
            let written = data@.take(n as int);
            assert(bytes@ =~= written + window.subrange(n as int, len as int));
            assert(self.contents() =~= splice(before, addr as int, written));
        }
        Ok(())
    }

    /// The two-byte word at `addr`, high byte first.
    fn get_word(&self, addr: u16) -> (r: Result<u16, Chip8Error>)
        ensures
            r is Ok <==> addr + 2 <= self.contents().len(),
            r is Err ==> r == Err::<u16, Chip8Error>(Chip8Error::OutOfBounds),
            r is Ok ==> r.unwrap() == word_at(self.contents(), addr as int),
    {
        let word = self.get_ro_slice(addr, 2)?;
        let hi: u16 = word[0] as u16;
        let lo: u16 = word[1] as u16;
        assert(hi << 8 == hi * 256) by (bit_vector)
            requires
                hi < 256,
        ;
        Ok((hi << 8) + lo)
    }

    /// A writable view of `len` bytes of memory from `addr` on, if they lie
    /// inside memory.  What is written through the view replaces exactly
    /// those bytes.
    fn get_rw_slice(&mut self, addr: u16, len: usize) -> (r: Result<&mut [u8], Chip8Error>)
        ensures
            r is Ok <==> addr + len <= old(self).contents().len(),
            r is Err ==> r == Err::<&mut [u8], Chip8Error>(Chip8Error::OutOfBounds),
            r is Err ==> final(self).contents() == old(self).contents(),
            r is Ok ==> r.unwrap()@ == old(self).contents().subrange(addr as int, addr + len),
            r is Ok ==> final(self).contents() == old(self).contents().subrange(0, addr as int)
                + final(r.unwrap())@
                + old(self).contents().subrange(addr + len, old(self).contents().len() as int),
            final(self).same_layout(old(self)),
    ;

    /// A read-only view of `len` bytes of memory from `addr` on, if they lie
    /// inside memory.
    fn get_ro_slice(&self, addr: u16, len: usize) -> (r: Result<&[u8], Chip8Error>)
        ensures
            r is Ok <==> addr + len <= self.contents().len(),
            r is Err ==> r == Err::<&[u8], Chip8Error>(Chip8Error::OutOfBounds),
            r is Ok ==> r.unwrap()@ == self.contents().subrange(addr as int, addr + len),
    ;
}

/// The standard CHIP-8 memory map.
pub struct Chip8MemoryMap {
    pub bytes: Vec<u8>,
    pub program_addr: u16,
    pub stack_addr: u16,
    pub work_addr: u16,
    pub var_addr: u16,
    pub display_addr: u16,
}

impl View for Chip8MemoryMap {
    type V = Seq<u8>;

    open spec fn view(&self) -> Seq<u8> {
        self.bytes@
    }
}

impl MemoryMap for Chip8MemoryMap {
    open spec fn contents(&self) -> Seq<u8> {
        self@
    }

    open spec fn same_layout(&self, before: &Self) -> bool {
        &&& self.program_addr == before.program_addr
        &&& self.stack_addr == before.stack_addr
        &&& self.work_addr == before.work_addr
        &&& self.var_addr == before.var_addr
        &&& self.display_addr == before.display_addr
    }

    fn get_rw_slice(&mut self, addr: u16, len: usize) -> (r: Result<&mut [u8], Chip8Error>) {
        let a: usize = addr as usize;
        if len > self.bytes.len() || a > self.bytes.len() - len {
            return Err(Chip8Error::OutOfBounds);
        }
        let whole = self.bytes.as_mut_slice();
        let (_, rest) = whole.split_at_mut(a);
        let (window, _) = rest.split_at_mut(len);
        Ok(window)
    }

    fn get_ro_slice(&self, addr: u16, len: usize) -> (r: Result<&[u8], Chip8Error>) {
        let a: usize = addr as usize;
        if len > self.bytes.len() || a > self.bytes.len() - len {
            return Err(Chip8Error::OutOfBounds);
        }
        Ok(vstd::slice::slice_subrange(self.bytes.as_slice(), a, a + len))
    }
}

impl Chip8MemoryMap {
    /// The invariant of the map: 4K of memory, with the regions at their
    /// places below the top of RAM.
    pub open spec fn wf(&self) -> bool {
        &&& self@.len() == CHIP8_RAM_SIZE_BYTES
        &&& self.program_addr == CHIP8_PROGRAM_ADDR
        &&& self.stack_addr == CHIP8_STACK_ADDR
        &&& self.work_addr == CHIP8_WORK_ADDR
        &&& self.var_addr == CHIP8_VAR_ADDR
        &&& self.display_addr == CHIP8_DISPLAY_ADDR
    }

    /// Checks the invariant of the map, for callers that cannot prove it.
    pub fn is_well_formed(&self) -> (ok: bool)
        ensures
            ok == self.wf(),
    {
        self.bytes.len() == CHIP8_RAM_SIZE_BYTES as usize && self.program_addr
            == CHIP8_PROGRAM_ADDR && self.stack_addr == CHIP8_STACK_ADDR && self.work_addr
            == CHIP8_WORK_ADDR && self.var_addr == CHIP8_VAR_ADDR && self.display_addr
            == CHIP8_DISPLAY_ADDR
    }

    /// A memory map with the interpreter stub in place and everything else
    /// zeroed.
    pub fn new() -> (r: Result<Self, Chip8Error>)
        ensures
            r is Ok,
            r.unwrap().wf(),
            r.unwrap()@ == initial_memory(),
    {
        let mut bytes: Vec<u8> = Vec::new();
        let mut k: usize = 0;
        while k < CHIP8_RAM_SIZE_BYTES as usize
            invariant
                k <= CHIP8_RAM_SIZE_BYTES,
                bytes@.len() == k,
                forall|j: int| 0 <= j < k ==> bytes@[j] == 0u8,
            decreases CHIP8_RAM_SIZE_BYTES - k,
        {
            bytes.push(0);
            k += 1;
        }
        let mut mm = Chip8MemoryMap {
            bytes,
            program_addr: CHIP8_PROGRAM_ADDR,
            stack_addr: CHIP8_STACK_ADDR,
            work_addr: CHIP8_WORK_ADDR,
            var_addr: CHIP8_VAR_ADDR,
            display_addr: CHIP8_DISPLAY_ADDR,
        };
        let ghost zeroed = mm@;
        let stub = vstd::array::array_as_slice(&CHIP8_INTERPRETER_STUB);
        mm.write(stub, CHIP8_INTERPRETER_STUB_ADDR, 0x100)?;
        proof {
            assert(stub@.take(0x100) =~= CHIP8_INTERPRETER_STUB@);
            assert(mm@ =~= initial_memory());
        }
        Ok(mm)
    }

    /// Loads a CHIP-8 program at the program address.
    pub fn load_program(&mut self, program: &[u8]) -> (r: Result<(), Chip8Error>)
        requires
            old(self).wf(),
        ensures
            final(self).wf(),
            r is Ok <==> CHIP8_PROGRAM_ADDR + program@.len() <= CHIP8_RAM_SIZE_BYTES,
            r is Err ==> r == Err::<(), Chip8Error>(Chip8Error::OutOfBounds),
            r is Err ==> final(self)@ == old(self)@,
            r is Ok ==> final(self)@ == splice(old(self)@, CHIP8_PROGRAM_ADDR as int, program@),
    {
        let addr = self.program_addr;
        let r = self.write_any(program, addr);
        proof {
            if r is Ok {
                lemma_splice(old(self)@, CHIP8_PROGRAM_ADDR as int, program@);
            }
        }
        r
    }
}

} // verus!
