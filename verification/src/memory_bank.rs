use vstd::prelude::*;

verus! {

use vstd::slice::slice_to_vec;

/// Mathematical view of a [`MemoryBank`]: both byte arrays together with
/// the two address masks used for wraparound.
pub ghost struct MemState {
    /// Contents of the data memory (SRAM).
    pub data: Seq<u8>,
    /// Contents of the program memory (flash).
    pub program: Seq<u8>,
    /// Address mask of the data memory: its size minus one.
    pub dmask: u16,
    /// Address mask of the program memory: its size minus one.
    pub pmask: u16,
}

/// A mask of the form 2^k - 1, expressed as a bit equation so that it can
/// be used directly in bit-vector proofs.
pub open spec fn is_low_bits_mask(m: u16) -> bool {
    (m as u32) & ((m + 1) as u32) == 0
}

impl MemState {
    /// Both memories are a power of two long (at most 65536 bytes) and
    /// each mask is the matching size minus one.
    pub open spec fn wf(self) -> bool {
        &&& self.data.len() == self.dmask as nat + 1
        &&& self.program.len() == self.pmask as nat + 1
        &&& is_low_bits_mask(self.dmask)
        &&& is_low_bits_mask(self.pmask)
    }

    /// Index of the data-memory byte reached by `address` after mask
    /// wraparound.
    pub open spec fn data_index(self, address: u16) -> int {
        (address & self.dmask) as int
    }

    /// Index of the program-memory byte reached by `address` after mask
    /// wraparound.
    pub open spec fn program_index(self, address: u16) -> int {
        (address & self.pmask) as int
    }

    /// The little-endian 16-bit program word whose low byte sits at
    /// `address`; the high byte follows it, wrapping around the bank end.
    pub open spec fn program_word(self, address: u16) -> u16 {
        (self.program[self.program_index(address)] as u16
            | (self.program[self.program_index(wrap_add16(address, 1))] as u16) << 8)
    }

    /// The state after a data-memory store of `value` at `address`.
    pub open spec fn store_data(self, address: u16, value: u8) -> MemState {
        MemState { data: self.data.update(self.data_index(address), value), ..self }
    }
}

/// Addition on 16-bit addresses, wrapping at 2^16.
pub open spec fn wrap_add16(a: u16, b: u16) -> u16 {
    ((a + b) % 0x10000) as u16
}

/// A bitwise-and with a mask never exceeds the mask.
pub proof fn lemma_and_mask_le(x: u16, m: u16)
    ensures
        x & m <= m,
{
    assert(x & m <= m) by (bit_vector);
}

/// A data-memory store hits a valid index and changes nothing but that
/// one byte of the data memory.
pub proof fn lemma_store_data_shape(m: MemState, address: u16, value: u8)
    requires
        m.wf(),
    ensures
        0 <= m.data_index(address) < m.data.len(),
        m.store_data(address, value).wf(),
        m.store_data(address, value).data.len() == m.data.len(),
        m.store_data(address, value).program == m.program,
        m.store_data(address, value).dmask == m.dmask,
        m.store_data(address, value).pmask == m.pmask,
        m.store_data(address, value).data[m.data_index(address)] == value,
        forall|j: int|
            0 <= j < m.data.len() && j != m.data_index(address) ==> m.store_data(
                address,
                value,
            ).data[j] == m.data[j],
{
    lemma_and_mask_le(address, m.dmask);
}

/// Masking with a low-bits mask is reduction modulo the mask plus one.
pub proof fn lemma_mask_is_mod(x: u16, m: u16)
    requires
        is_low_bits_mask(m),
    ensures
        (x & m) as int == (x as int) % (m as int + 1),
{
    assert((x as u32) & (m as u32) == (x as u32) % ((m + 1) as u32)) by (bit_vector)
        requires
            is_low_bits_mask(m),
    ;
    assert((x as u32) & (m as u32) == (x & m) as u32) by (bit_vector);
}

/// A low-bits mask plus one divides 2^16: reducing modulo 2^16 first
/// does not change a reduction modulo the mask plus one.
pub proof fn lemma_mod_of_mod16(x: int, m: u16)
    requires
        is_low_bits_mask(m),
    ensures
        (x % 0x10000) % (m as int + 1) == x % (m as int + 1),
{
    assert(m == 0 || m == 1 || m == 3 || m == 7 || m == 0xF || m == 0x1F || m == 0x3F || m == 0x7F
        || m == 0xFF || m == 0x1FF || m == 0x3FF || m == 0x7FF || m == 0xFFF || m == 0x1FFF || m
        == 0x3FFF || m == 0x7FFF || m == 0xFFFF) by (bit_vector)
        requires
            is_low_bits_mask(m),
    ;
    let d = m as int + 1;
    if m == 0 {
        vstd::arithmetic::div_mod::lemma_mod_mod(x, d, 0x10000);
    } else if m == 1 {
        vstd::arithmetic::div_mod::lemma_mod_mod(x, d, 0x8000);
    } else if m == 3 {
        vstd::arithmetic::div_mod::lemma_mod_mod(x, d, 0x4000);
    } else if m == 7 {
        vstd::arithmetic::div_mod::lemma_mod_mod(x, d, 0x2000);
    } else if m == 0xF {
        vstd::arithmetic::div_mod::lemma_mod_mod(x, d, 0x1000);
    } else if m == 0x1F {
        vstd::arithmetic::div_mod::lemma_mod_mod(x, d, 0x800);
    } else if m == 0x3F {
        vstd::arithmetic::div_mod::lemma_mod_mod(x, d, 0x400);
    } else if m == 0x7F {
        vstd::arithmetic::div_mod::lemma_mod_mod(x, d, 0x200);
    } else if m == 0xFF {
        vstd::arithmetic::div_mod::lemma_mod_mod(x, d, 0x100);
    } else if m == 0x1FF {
        vstd::arithmetic::div_mod::lemma_mod_mod(x, d, 0x80);
    } else if m == 0x3FF {
        vstd::arithmetic::div_mod::lemma_mod_mod(x, d, 0x40);
    } else if m == 0x7FF {
        vstd::arithmetic::div_mod::lemma_mod_mod(x, d, 0x20);
    } else if m == 0xFFF {
        vstd::arithmetic::div_mod::lemma_mod_mod(x, d, 0x10);
    } else if m == 0x1FFF {
        vstd::arithmetic::div_mod::lemma_mod_mod(x, d, 0x8);
    } else if m == 0x3FFF {
        vstd::arithmetic::div_mod::lemma_mod_mod(x, d, 0x4);
    } else if m == 0x7FFF {
        vstd::arithmetic::div_mod::lemma_mod_mod(x, d, 0x2);
    } else {
        vstd::arithmetic::div_mod::lemma_mod_mod(x, d, 0x1);
    }
}

/// Wrapping a value into 16 bits and masking is one reduction modulo the
/// mask plus one.
pub proof fn lemma_wrap_and_mask(x: int, m: u16)
    requires
        is_low_bits_mask(m),
    ensures
        ((((x % 0x10000) as u16) & m) as int) == x % (m as int + 1),
{
    lemma_mask_is_mod((x % 0x10000) as u16, m);
    lemma_mod_of_mod16(x, m);
}

/// Microcontroller main memory: a data bank and a program bank, each a
/// power of two long; addresses wrap around by masking with size minus one.
pub struct MemoryBank {
    data_memory: Vec<u8>,
    program_memory: Vec<u8>,
    data_mask: u16,
    program_mask: u16,
}

impl View for MemoryBank {
    type V = MemState;

    closed spec fn view(&self) -> MemState {
        MemState {
            data: self.data_memory@,
            program: self.program_memory@,
            dmask: self.data_mask,
            pmask: self.program_mask,
        }
    }
}

/// A memory size the bank accepts: a power of two that 16-bit addresses
/// can cover.
pub open spec fn valid_bank_size(n: nat) -> bool {
    &&& 0 < n <= 0x10000
    &&& is_low_bits_mask((n - 1) as u16)
}

/// A vector of `n` zero bytes.
fn zero_vec(n: usize) -> (v: Vec<u8>)
    ensures
        v@ == Seq::new(n as nat, |i: int| 0u8),
{
    let mut v: Vec<u8> = Vec::new();
    let mut i: usize = 0;
    while i < n
        invariant
            i <= n,
            v@ == Seq::new(i as nat, |j: int| 0u8),
        decreases n - i,
    {
        v.push(0);
        i = i + 1;
        proof {
            assert(v@ =~= Seq::new(i as nat, |j: int| 0u8));
        }
    }
    v
}

/// Exec test for a power of two reachable by 16-bit addresses.
fn check_bank_size(n: usize) -> (r: bool)
    ensures
        r == valid_bank_size(n as nat),
{
    if n == 0 || n > 0x10000 {
        return false;
    }
    let nm1: usize = n - 1;
    let r = n & nm1 == 0;
    proof {
        let m = (n - 1) as u16;
        assert((n & nm1 == 0) == is_low_bits_mask(m)) by (bit_vector)
            requires
                0 < n <= 0x10000,
                nm1 == n - 1,
                m == (n - 1) as u16,
        ;
    }
    r
}

impl MemoryBank {
    /// Creates a new memory bank holding zeroes. Each capacity must be a
    /// power of two (and addressable by 16 bits); any other request is a
    /// configuration error.
    pub fn new(data_size: usize, program_size: usize) -> (r: Result<MemoryBank, u8>)
        ensures
            r is Ok <==> (valid_bank_size(data_size as nat) && valid_bank_size(
                program_size as nat,
            )),
            r matches Ok(bank) ==> {
                &&& bank@.wf()
                &&& bank@.data == Seq::new(data_size as nat, |i: int| 0u8)
                &&& bank@.program == Seq::new(program_size as nat, |i: int| 0u8)
            },
            r matches Err(e) ==> e == 1u8,
    {
        if !check_bank_size(data_size) || !check_bank_size(program_size) {
            return Err(1);
        }
        let data_memory = zero_vec(data_size);
        let program_memory = zero_vec(program_size);
        let data_mask = ((data_size - 1) as u16);
        let program_mask = ((program_size - 1) as u16);
        Ok(MemoryBank { data_memory, program_memory, data_mask, program_mask })
    }

    /// Replaces the whole data memory with a copy of `data`.
    ///
    /// The caller must hand over exactly one bank's worth of bytes, so
    /// that the size invariant is kept.
    pub fn set_data_memory(&mut self, data: &[u8])
        requires
            old(self)@.wf(),
            data@.len() == old(self)@.data.len(),
        ensures
            final(self)@ == (MemState { data: data@, ..old(self)@ }),
            final(self)@.wf(),
    {
        self.data_memory = slice_to_vec(data);
    }

    /// Replaces the whole program memory with a copy of `data`.
    ///
    /// The caller must hand over exactly one bank's worth of bytes, so
    /// that the size invariant is kept.
    pub fn set_program_memory(&mut self, data: &[u8])
        requires
            old(self)@.wf(),
            data@.len() == old(self)@.program.len(),
        ensures
            final(self)@ == (MemState { program: data@, ..old(self)@ }),
            final(self)@.wf(),
    {
        self.program_memory = slice_to_vec(data);
    }

    /// Returns the data byte at `address`, after mask wraparound.
    pub fn get_data_byte(&self, address: u16) -> (r: u8)
        requires
            self@.wf(),
        ensures
            r == self@.data[self@.data_index(address)],
    {
        let wrapped = address & self.data_mask;
        proof {
            lemma_and_mask_le(address, self.data_mask);
        }
        self.data_memory[wrapped as usize]
    }

    /// Stores `data` at `address` in the data memory, after mask
    /// wraparound.
    pub fn set_data_byte(&mut self, address: u16, data: u8)
        requires
            old(self)@.wf(),
        ensures
            final(self)@ == old(self)@.store_data(address, data),
            final(self)@.wf(),
    {
        let wrapped = address & self.data_mask;
        proof {
            lemma_and_mask_le(address, self.data_mask);
        }
        self.data_memory[wrapped as usize] = data;
    }

    /// Fetches the little-endian 16-bit word whose low byte sits at
    /// `address` in the program memory; both byte addresses wrap around
    /// the bank end.
    pub fn get_program_word(&self, address: u16) -> (r: u16)
        requires
            self@.wf(),
        ensures
            r == self@.program_word(address),
    {
        let lo_index = address & self.program_mask;
        let hi_index = address.wrapping_add(1) & self.program_mask;
        proof {
            lemma_and_mask_le(address, self.program_mask);
            lemma_and_mask_le(address.wrapping_add(1), self.program_mask);
            assert(address.wrapping_add(1) == wrap_add16(address, 1));
        }
        let lo = self.program_memory[lo_index as usize];
        let hi = self.program_memory[hi_index as usize];
        (lo as u16) | ((hi as u16) << 8)
    }

    /// Copies `data` into the start of the data memory; a buffer larger
    /// than the bank is silently truncated to the bank size.
    pub fn copy_into_data_memory(&mut self, data: &[u8])
        requires
            old(self)@.wf(),
        ensures
            final(self)@ == (MemState {
                data: Seq::new(
                    old(self)@.data.len(),
                    |i: int|
                        if i < data@.len() {
                            data@[i]
                        } else {
                            old(self)@.data[i]
                        },
                ),
                ..old(self)@
            }),
            final(self)@.wf(),
    {
        let n = if data.len() < self.data_memory.len() {
            data.len()
        } else {
            self.data_memory.len()
        };
        let mut i: usize = 0;
        while i < n
            invariant
                i <= n,
                n <= data@.len(),
                n <= self.data_memory@.len(),
                self.data_memory@.len() == old(self).data_memory@.len(),
                self.program_memory == old(self).program_memory,
                self.data_mask == old(self).data_mask,
                self.program_mask == old(self).program_mask,
                forall|j: int|
                    0 <= j < self.data_memory@.len() ==> self.data_memory@[j] == (if j < i {
                        data@[j]
                    } else {
                        old(self).data_memory@[j]
                    }),
            decreases n - i,
        {
            self.data_memory[i] = data[i];
            i = i + 1;
        }
        proof {
            assert(self@.data =~= Seq::new(
                old(self)@.data.len(),
                |i: int|
                    if i < data@.len() {
                        data@[i]
                    } else {
                        old(self)@.data[i]
                    },
            ));
        }
    }

    /// Copies the start of the data memory into `data`; a buffer larger
    /// than the bank receives only the bank's bytes.
    pub fn copy_from_data_memory(&self, data: &mut [u8])
        requires
            self@.wf(),
        ensures
            final(data)@ == Seq::new(
                old(data)@.len(),
                |i: int|
                    if i < self@.data.len() {
                        self@.data[i]
                    } else {
                        old(data)@[i]
                    },
            ),
    {
        let n = if data.len() < self.data_memory.len() {
            data.len()
        } else {
            self.data_memory.len()
        };
        let mut i: usize = 0;
        while i < n
            invariant
                i <= n,
                n <= data@.len(),
                n <= self.data_memory@.len(),
                data@.len() == old(data)@.len(),
                forall|j: int|
                    0 <= j < data@.len() ==> data@[j] == (if j < i {
                        self.data_memory@[j]
                    } else {
                        old(data)@[j]
                    }),
            decreases n - i,
        {
            data[i] = self.data_memory[i];
            i = i + 1;
        }
        proof {
            assert(data@ =~= Seq::new(
                old(data)@.len(),
                |i: int|
                    if i < self@.data.len() {
                        self@.data[i]
                    } else {
                        old(data)@[i]
                    },
            ));
        }
    }

    /// Copies `data` into the start of the program memory; a buffer
    /// larger than the bank is silently truncated to the bank size.
    pub fn copy_into_program_memory(&mut self, data: &[u8])
        requires
            old(self)@.wf(),
        ensures
            final(self)@ == (MemState {
                program: Seq::new(
                    old(self)@.program.len(),
                    |i: int|
                        if i < data@.len() {
                            data@[i]
                        } else {
                            old(self)@.program[i]
                        },
                ),
                ..old(self)@
            }),
            final(self)@.wf(),
    {
        let n = if data.len() < self.program_memory.len() {
            data.len()
        } else {
            self.program_memory.len()
        };
        let mut i: usize = 0;
        while i < n
            invariant
                i <= n,
                n <= data@.len(),
                n <= self.program_memory@.len(),
                self.program_memory@.len() == old(self).program_memory@.len(),
                self.data_memory == old(self).data_memory,
                self.data_mask == old(self).data_mask,
                self.program_mask == old(self).program_mask,
                forall|j: int|
                    0 <= j < self.program_memory@.len() ==> self.program_memory@[j] == (if j < i {
                        data@[j]
                    } else {
                        old(self).program_memory@[j]
                    }),
            decreases n - i,
        {
            self.program_memory[i] = data[i];
            i = i + 1;
        }
        proof {
            assert(self@.program =~= Seq::new(
                old(self)@.program.len(),
                |i: int|
                    if i < data@.len() {
                        data@[i]
                    } else {
                        old(self)@.program[i]
                    },
            ));
        }
    }

    /// Copies the start of the program memory into `data`; a buffer
    /// larger than the bank receives only the bank's bytes.
    pub fn copy_from_program_memory(&self, data: &mut [u8])
        requires
            self@.wf(),
        ensures
            final(data)@ == Seq::new(
                old(data)@.len(),
                |i: int|
                    if i < self@.program.len() {
                        self@.program[i]
                    } else {
                        old(data)@[i]
                    },
            ),
    {
        let n = if data.len() < self.program_memory.len() {
            data.len()
        } else {
            self.program_memory.len()
        };
        let mut i: usize = 0;
        while i < n
            invariant
                i <= n,
                n <= data@.len(),
                n <= self.program_memory@.len(),
                data@.len() == old(data)@.len(),
                forall|j: int|
                    0 <= j < data@.len() ==> data@[j] == (if j < i {
                        self.program_memory@[j]
                    } else {
                        old(data)@[j]
                    }),
            decreases n - i,
        {
            data[i] = self.program_memory[i];
            i = i + 1;
        }
        proof {
            assert(data@ =~= Seq::new(
                old(data)@.len(),
                |i: int|
                    if i < self@.program.len() {
                        self@.program[i]
                    } else {
                        old(data)@[i]
                    },
            ));
        }
    }

    /// Wraps a byte address to the program-memory size.
    pub fn mask_program_address(&self, address: u16) -> (r: u16)
        ensures
            r == address & self@.pmask,
    {
        address & self.program_mask
    }

    /// Data memory (SRAM) size in bytes.
    pub fn data_size(&self) -> (r: usize)
        ensures
            r == self@.data.len(),
    {
        self.data_memory.len()
    }

    /// Program memory (flash) size in bytes.
    pub fn program_size(&self) -> (r: usize)
        ensures
            r == self@.program.len(),
    {
        self.program_memory.len()
    }
}

} // verus!
