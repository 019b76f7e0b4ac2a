//! Typed reads and writes of the target's memory at an address, with the
//! bytes decoded little-endian.
use vstd::prelude::*;

use crate::scan::MemoryWindow;

verus! {

/// Access to the target's memory.
pub trait ProcessMemory {
    /// The `len` bytes at `addr`, or `None` where they cannot be read. A
    /// checked implementation such as `MemorySnapshot` states it. The
    /// default is for implementations outside this library, over the live
    /// process, which cannot state its bytes: for such an implementation
    /// the default is not true of its reads, and what the contracts here
    /// say of the values read through it does not apply; only its own code
    /// stands behind them. Generic code never learns the default: for an
    /// unknown implementation `bytes_at` stays unknown.
    open spec fn bytes_at(&self, addr: int, len: nat) -> Option<Seq<u8>> {
        None
    }

    /// Reads `len` bytes at `addr`.
    fn read(&self, addr: u64, len: usize) -> (r: Option<Vec<u8>>)
        ensures
            match self.bytes_at(addr as int, len as nat) {
                Some(b) => r matches Some(v) && v@ == b && b.len() == len,
                None => r is None,
            },
    ;

    /// Writes `bytes` at `addr`. It succeeds exactly where that range can be
    /// read; a failed write changes nothing. A write leaves every range
    /// apart from it as it was.
    fn write(&mut self, addr: u64, bytes: &[u8]) -> (r: bool)
        ensures
            r == old(self).bytes_at(addr as int, bytes@.len()) is Some,
            r ==> final(self).bytes_at(addr as int, bytes@.len()) == Some(bytes@),
            forall|a: int, n: nat|
                (!r || a + n <= addr || addr + bytes@.len() <= a) ==> #[trigger] final(self).bytes_at(a, n)
                    == old(self).bytes_at(a, n),
    ;
}

/// Whether window `w` holds all of `addr .. addr + len`.
pub open spec fn covers(w: MemoryWindow, addr: int, len: int) -> bool {
    w.base <= addr && addr + len <= w.base + w.bytes@.len()
}

/// The index of the first window from `from` on that holds the range.
pub open spec fn first_cover(ws: Seq<MemoryWindow>, addr: int, len: int, from: int) -> Option<int>
    decreases ws.len() - from,
{
    if from < 0 || from >= ws.len() {
        None
    } else if covers(ws[from], addr, len) {
        Some(from)
    } else {
        first_cover(ws, addr, len, from + 1)
    }
}

/// Memory as a list of copied windows; a range is read from the first
/// window that holds all of it.
pub struct MemorySnapshot {
    pub windows: Vec<MemoryWindow>,
}

impl ProcessMemory for MemorySnapshot {
    open spec fn bytes_at(&self, addr: int, len: nat) -> Option<Seq<u8>> {
        match first_cover(self.windows@, addr, len as int, 0) {
            Some(w) => Some(
                self.windows@[w].bytes@.subrange(addr - self.windows@[w].base, addr - self.windows@[w].base + len),
            ),
            None => None,
        }
    }

    fn read(&self, addr: u64, len: usize) -> (r: Option<Vec<u8>>) {
        match self.find(addr, len) {
            None => None,
            Some(w) => {
                let window = &self.windows[w];
                let size: usize = window.bytes.len();
                assert(addr - window.base <= size);
                let start = (addr - window.base) as usize;
                assert(start == addr - window.base);
                let mut out: Vec<u8> = Vec::new();
                let mut k: usize = 0;
                while k < len
                    invariant
                        k <= len,
                        covers(*window, addr as int, len as int),
                        size == window.bytes@.len(),
                        start == addr - window.base,
                        out@ == window.bytes@.subrange(start as int, start + k),
                    decreases len - k,
                {
                    out.push(window.bytes[start + k]);
                    k += 1;
                    assert(out@ =~= window.bytes@.subrange(start as int, start + k));
                }
                assert(first_cover(self.windows@, addr as int, (len as nat) as int, 0) == Some(w as int));
                assert(self.bytes_at(addr as int, len as nat) == Some(out@));
                Some(out)
            },
        }
    }

    fn write(&mut self, addr: u64, bytes: &[u8]) -> (r: bool) {
        match self.find(addr, bytes.len()) {
            None => false,
            Some(w) => {
                let ghost ws0 = self.windows@;
                let mut window = self.windows.remove(w);
                assert(window == ws0[w as int]);
                let size: usize = window.bytes.len();
                assert(addr - window.base <= size);
                let start = (addr - window.base) as usize;
                assert(start == addr - window.base);
                let mut k: usize = 0;
                while k < bytes.len()
                    invariant
                        k <= bytes.len(),
                        window.base == ws0[w as int].base,
                        window.bytes@.len() == ws0[w as int].bytes@.len(),
                        covers(window, addr as int, bytes@.len() as int),
                        size == window.bytes@.len(),
                        start == addr - window.base,
                        forall|j: int| 0 <= j < k ==> window.bytes@[start + j] == bytes@[j],
                        forall|j: int|
                            0 <= j < window.bytes@.len() && !(start <= j < start + k) ==> window.bytes@[j]
                                == ws0[w as int].bytes@[j],
                    decreases bytes.len() - k,
                {
                    window.bytes.set(start + k, bytes[k]);
                    k += 1;
                }
                self.windows.insert(w, window);
                proof {
                    assert forall|i: int| 0 <= i < self.windows@.len() implies
                        #[trigger] self.windows@[i].base == ws0[i].base
                        && self.windows@[i].bytes@.len() == ws0[i].bytes@.len() by {}
                    lemma_first_cover_same_shape(ws0, self.windows@, addr as int, bytes@.len() as int, 0);
                    assert(self.windows@[w as int].bytes@.subrange(start as int, start + bytes@.len())
                        =~= bytes@);
                    let ws1 = self.windows@;
                    assert forall|a: int, n: nat| a + n <= addr || addr + bytes@.len() <= a implies #[trigger] self.bytes_at(a, n)
                        == old(self).bytes_at(a, n) by {
                        lemma_first_cover_same_shape(ws0, ws1, a, n as int, 0);
                        match first_cover(ws0, a, n as int, 0) {
                            Some(v) => {
                                lemma_first_cover_covers(ws0, a, n as int, 0);
                                if v != w {
                                    assert(ws1[v] == ws0[v]);
                                } else {
                                    let lo = a - ws0[v].base;
                                    assert(ws1[v].bytes@.subrange(lo, lo + n) =~= ws0[v].bytes@.subrange(lo, lo + n));
                                }
                            },
                            None => {},
                        }
                    }
                }
                true
            },
        }
    }
}

/// The window that `first_cover` names lies in range and holds the range.
proof fn lemma_first_cover_covers(ws: Seq<MemoryWindow>, addr: int, len: int, from: int)
    ensures
        first_cover(ws, addr, len, from) matches Some(w) ==> from <= w < ws.len() && covers(ws[w], addr, len),
    decreases ws.len() - from,
{
    if 0 <= from < ws.len() && !covers(ws[from], addr, len) {
        lemma_first_cover_covers(ws, addr, len, from + 1);
    }
}

/// Windows of the same bases and lengths are covered alike.
proof fn lemma_first_cover_same_shape(a: Seq<MemoryWindow>, b: Seq<MemoryWindow>, addr: int, len: int, from: int)
    requires
        a.len() == b.len(),
        forall|i: int| 0 <= i < a.len() ==> #[trigger] b[i].base == a[i].base && b[i].bytes@.len() == a[i].bytes@.len(),
    ensures
        first_cover(a, addr, len, from) == first_cover(b, addr, len, from),
    decreases a.len() - from,
{
    if 0 <= from < a.len() {
        lemma_first_cover_same_shape(a, b, addr, len, from + 1);
    }
}

impl MemorySnapshot {
    fn find(&self, addr: u64, len: usize) -> (r: Option<usize>)
        ensures
            r matches Some(w) ==> first_cover(self.windows@, addr as int, len as int, 0) == Some(w as int),
            r is None ==> first_cover(self.windows@, addr as int, len as int, 0) is None,
            r matches Some(w) ==> w < self.windows@.len() && covers(self.windows@[w as int], addr as int, len as int),
    {
        let mut w: usize = 0;
        while w < self.windows.len()
            invariant
                w <= self.windows.len(),
                first_cover(self.windows@, addr as int, len as int, 0) == first_cover(
                    self.windows@,
                    addr as int,
                    len as int,
                    w as int,
                ),
            decreases self.windows.len() - w,
        {
            let window = &self.windows[w];
            if window.base <= addr && addr - window.base <= window.bytes.len() as u64
                && len as u64 <= window.bytes.len() as u64 - (addr - window.base) {
                assert(covers(*window, addr as int, len as int));
                return Some(w);
            }
            w += 1;
        }
        None
    }
}

/// The address `base + offset`, where it is one.
pub open spec fn field_address(base: u64, offset: u64) -> Option<u64> {
    if base + offset <= u64::MAX { Some((base + offset) as u64) } else { None }
}

pub fn field_addr(base: u64, offset: u64) -> (r: Option<u64>)
    ensures
        r == field_address(base, offset),
{
    base.checked_add(offset)
}

pub open spec fn le_u64(b: Seq<u8>) -> int {
    b[0] + 0x100 * b[1] + 0x10000 * b[2] + 0x1000000 * b[3] + 0x100000000 * b[4] + 0x10000000000 * b[5]
        + 0x1000000000000 * b[6] + 0x100000000000000 * b[7]
}

pub open spec fn le_u32(b: Seq<u8>) -> int {
    b[0] + 0x100 * b[1] + 0x10000 * b[2] + 0x1000000 * b[3]
}

pub open spec fn le_u16(b: Seq<u8>) -> int {
    b[0] + 0x100 * b[1]
}

/// The value of `n` bytes read at `addr`, as an unsigned number.
pub open spec fn unsigned_at<M: ProcessMemory>(mem: &M, addr: Option<u64>, n: nat) -> Option<int> {
    match addr {
        None => None,
        Some(a) => match mem.bytes_at(a as int, n) {
            None => None,
            Some(b) => Some(if n == 1 { b[0] as int } else if n == 2 { le_u16(b) } else if n == 4 { le_u32(b) } else { le_u64(b) }),
        },
    }
}

/// An unsigned value read as two's complement of `bits` bits.
pub open spec fn signed(v: int, bits: nat) -> int {
    if v >= pow2(bits) / 2 { v - pow2(bits) } else { v }
}

pub open spec fn pow2(bits: nat) -> int {
    if bits == 8 { 0x100 } else if bits == 16 { 0x10000 } else if bits == 32 { 0x100000000 } else { 0x10000000000000000 }
}

pub open spec fn u8_at<M: ProcessMemory>(mem: &M, addr: Option<u64>) -> Option<u8> {
    match unsigned_at(mem, addr, 1) {
        Some(v) => Some(v as u8),
        None => None,
    }
}

pub open spec fn bool_at<M: ProcessMemory>(mem: &M, addr: Option<u64>) -> Option<bool> {
    match unsigned_at(mem, addr, 1) {
        Some(v) => Some(v != 0),
        None => None,
    }
}

pub open spec fn i8_at<M: ProcessMemory>(mem: &M, addr: Option<u64>) -> Option<i8> {
    match unsigned_at(mem, addr, 1) {
        Some(v) => Some(signed(v, 8) as i8),
        None => None,
    }
}

pub open spec fn u16_at<M: ProcessMemory>(mem: &M, addr: Option<u64>) -> Option<u16> {
    match unsigned_at(mem, addr, 2) {
        Some(v) => Some(v as u16),
        None => None,
    }
}

pub open spec fn i16_at<M: ProcessMemory>(mem: &M, addr: Option<u64>) -> Option<i16> {
    match unsigned_at(mem, addr, 2) {
        Some(v) => Some(signed(v, 16) as i16),
        None => None,
    }
}

pub open spec fn u32_at<M: ProcessMemory>(mem: &M, addr: Option<u64>) -> Option<u32> {
    match unsigned_at(mem, addr, 4) {
        Some(v) => Some(v as u32),
        None => None,
    }
}

pub open spec fn i32_at<M: ProcessMemory>(mem: &M, addr: Option<u64>) -> Option<i32> {
    match unsigned_at(mem, addr, 4) {
        Some(v) => Some(signed(v, 32) as i32),
        None => None,
    }
}

pub open spec fn u64_at<M: ProcessMemory>(mem: &M, addr: Option<u64>) -> Option<u64> {
    match unsigned_at(mem, addr, 8) {
        Some(v) => Some(v as u64),
        None => None,
    }
}

pub fn read_u8<M: ProcessMemory>(mem: &M, addr: Option<u64>) -> (r: Option<u8>)
    ensures
        r == u8_at(mem, addr),
{
    let a = addr?;
    let b = mem.read(a, 1)?;
    Some(b[0])
}

pub fn read_bool<M: ProcessMemory>(mem: &M, addr: Option<u64>) -> (r: Option<bool>)
    ensures
        r == bool_at(mem, addr),
{
    let b = read_u8(mem, addr)?;
    Some(b != 0)
}

pub fn read_i8<M: ProcessMemory>(mem: &M, addr: Option<u64>) -> (r: Option<i8>)
    ensures
        r == i8_at(mem, addr),
{
    let b = read_u8(mem, addr)?;
    if b >= 0x80 {
        Some(((b - 0x80) as i8) - 0x7F - 1)
    } else {
        Some(b as i8)
    }
}

pub fn read_u16<M: ProcessMemory>(mem: &M, addr: Option<u64>) -> (r: Option<u16>)
    ensures
        r == u16_at(mem, addr),
{
    let a = addr?;
    let b = mem.read(a, 2)?;
    Some(b[0] as u16 + 0x100 * (b[1] as u16))
}

pub fn read_i16<M: ProcessMemory>(mem: &M, addr: Option<u64>) -> (r: Option<i16>)
    ensures
        r == i16_at(mem, addr),
{
    let u = read_u16(mem, addr)?;
    if u >= 0x8000 {
        Some(((u - 0x8000) as i16) - 0x7FFF - 1)
    } else {
        Some(u as i16)
    }
}

pub fn read_u32<M: ProcessMemory>(mem: &M, addr: Option<u64>) -> (r: Option<u32>)
    ensures
        r == u32_at(mem, addr),
{
    let a = addr?;
    let b = mem.read(a, 4)?;
    Some(b[0] as u32 + 0x100 * (b[1] as u32) + 0x10000 * (b[2] as u32) + 0x1000000 * (b[3] as u32))
}

pub fn read_i32<M: ProcessMemory>(mem: &M, addr: Option<u64>) -> (r: Option<i32>)
    ensures
        r == i32_at(mem, addr),
{
    let u = read_u32(mem, addr)?;
    if u >= 0x80000000 {
        Some(((u - 0x80000000) as i32) - 0x7FFFFFFF - 1)
    } else {
        Some(u as i32)
    }
}

pub fn read_u64<M: ProcessMemory>(mem: &M, addr: Option<u64>) -> (r: Option<u64>)
    ensures
        r == u64_at(mem, addr),
{
    let a = addr?;
    let b = mem.read(a, 8)?;
    Some(
        b[0] as u64 + 0x100 * (b[1] as u64) + 0x10000 * (b[2] as u64) + 0x1000000 * (b[3] as u64)
            + 0x100000000 * (b[4] as u64) + 0x10000000000 * (b[5] as u64) + 0x1000000000000 * (
        b[6] as u64) + 0x100000000000000 * (b[7] as u64),
    )
}

/// Writes `v` as four little-endian bytes at `addr`.
pub fn write_i32<M: ProcessMemory>(mem: &mut M, addr: Option<u64>, v: i32) -> (r: bool)
    ensures
        r == (addr matches Some(w) && old(mem).bytes_at(w as int, 4) is Some),
        r ==> addr is Some && unsigned_at(final(mem), addr, 4) == Some(
            if v < 0 { v + 0x100000000 } else { v as int },
        ),
        forall|a: int, n: nat|
            (!r || (addr matches Some(w) && (a + n <= w || w + 4 <= a))) ==> #[trigger] final(mem).bytes_at(a, n)
                == old(mem).bytes_at(a, n),
{
    let a = match addr {
        Some(a) => a,
        None => return false,
    };
    let u: u32 = if v < 0 { ((v + 0x7FFFFFFF + 1) as u32) + 0x80000000 } else { v as u32 };
    let bytes: Vec<u8> = vec![(u % 0x100) as u8, (u / 0x100 % 0x100) as u8, (u / 0x10000 % 0x100) as u8, (u / 0x1000000) as u8];
    let ok = mem.write(a, bytes.as_slice());
    if ok {
        proof {
            let b = bytes@;
            assert(b.len() == 4);
            assert(le_u32(b) == u) by (nonlinear_arith)
                requires
                    b[0] == u % 0x100,
                    b[1] == u / 0x100 % 0x100,
                    b[2] == u / 0x10000 % 0x100,
                    b[3] == u / 0x1000000,
                    u <= 0xFFFF_FFFF,
            {}
        }
    }
    ok
}

/// Writes `v` as one byte at `addr`.
pub fn write_i8<M: ProcessMemory>(mem: &mut M, addr: Option<u64>, v: i8) -> (r: bool)
    ensures
        r == (addr matches Some(w) && old(mem).bytes_at(w as int, 1) is Some),
        r ==> addr is Some && unsigned_at(final(mem), addr, 1) == Some(if v < 0 { v + 0x100 } else { v as int }),
        forall|a: int, n: nat|
            (!r || (addr matches Some(w) && (a + n <= w || w + 1 <= a))) ==> #[trigger] final(mem).bytes_at(a, n)
                == old(mem).bytes_at(a, n),
{
    let a = match addr {
        Some(a) => a,
        None => return false,
    };
    let u: u8 = if v < 0 { ((v + 0x7F + 1) as u8) + 0x80 } else { v as u8 };
    let bytes: Vec<u8> = vec![u];
    let ok = mem.write(a, bytes.as_slice());
    ok
}


/// `addr` moved by a signed `offset`, where the result is an address.
pub open spec fn moved(addr: u64, offset: i64) -> Option<u64> {
    if 0 <= addr + offset <= u64::MAX { Some((addr + offset) as u64) } else { None }
}

pub fn move_addr(addr: u64, offset: i64) -> (r: Option<u64>)
    ensures
        r == moved(addr, offset),
{
    if offset >= 0 {
        addr.checked_add(offset as u64)
    } else {
        let back = (-(offset + 1)) as u64 + 1;
        if addr >= back { Some(addr - back) } else { None }
    }
}

/// Follows a chain of pointers: at each step the pointer stored at the
/// current address is read; a null or unreadable pointer ends the walk
/// with `None`; otherwise the step's offset is added to it.
pub open spec fn chain<M: ProcessMemory>(mem: &M, addr: u64, offsets: Seq<i64>) -> Option<u64>
    decreases offsets.len(),
{
    if offsets.len() == 0 {
        Some(addr)
    } else {
        match u64_at(mem, Some(addr)) {
            None => None,
            Some(p) => if p == 0 {
                None
            } else {
                match moved(p, offsets[0]) {
                    None => None,
                    Some(a) => chain(mem, a, offsets.drop_first()),
                }
            },
        }
    }
}

/// The address at the end of the pointer chain from `base`; a null base
/// gives `None`.
pub fn follow_chain<M: ProcessMemory>(mem: &M, base: u64, offsets: &[i64]) -> (r: Option<u64>)
    ensures
        r == (if base == 0 { None } else { chain(mem, base, offsets@) }),
{
    if base == 0 {
        return None;
    }
    let mut addr = base;
    let mut k: usize = 0;
    assert(offsets@.subrange(0, offsets@.len() as int) =~= offsets@);
    while k < offsets.len()
        invariant
            k <= offsets.len(),
            chain(mem, base, offsets@) == chain(mem, addr, offsets@.subrange(k as int, offsets@.len() as int)),
        decreases offsets.len() - k,
    {
        let ghost rest = offsets@.subrange(k as int, offsets@.len() as int);
        assert(rest.drop_first() =~= offsets@.subrange(k + 1, offsets@.len() as int));
        assert(rest[0] == offsets@[k as int]);
        let p = read_u64(mem, Some(addr))?;
        if p == 0 {
            return None;
        }
        addr = move_addr(p, offsets[k])?;
        k += 1;
    }
    assert(offsets@.subrange(k as int, offsets@.len() as int) =~= Seq::<i64>::empty());
    Some(addr)
}

/// The bytes from `addr` up to, not including, the first zero byte.
pub open spec fn c_string_at<M: ProcessMemory>(mem: &M, addr: int, len: nat) -> bool {
    &&& forall|k: int|
        0 <= k < len ==> #[trigger] u8_at(mem, Some((addr + k) as u64)) is Some && u8_at(mem, Some((addr + k) as u64))
            != Some(0u8)
    &&& u8_at(mem, Some((addr + len) as u64)) == Some(0u8)
    &&& addr + len <= u64::MAX
}

/// Reads the zero-terminated byte string at `addr`; `None` if a byte
/// before the terminator cannot be read.
pub fn read_c_string<M: ProcessMemory>(mem: &M, addr: u64) -> (r: Option<Vec<u8>>)
    ensures
        r matches Some(v) ==> c_string_at(mem, addr as int, v@.len()) && forall|k: int|
            0 <= k < v@.len() ==> u8_at(mem, Some((addr + k) as u64)) == Some(#[trigger] v@[k]),
{
    let mut out: Vec<u8> = Vec::new();
    let mut a = addr;
    loop
        invariant
            a == addr + out@.len(),
            addr + out@.len() <= u64::MAX,
            forall|k: int|
                0 <= k < out@.len() ==> u8_at(mem, Some((addr + k) as u64)) == Some(#[trigger] out@[k]) && out@[k] != 0,
        decreases u64::MAX - a,
    {
        let b = read_u8(mem, Some(a))?;
        if b == 0 {
            proof {
                assert forall|k: int| 0 <= k < out@.len() implies #[trigger] u8_at(mem, Some((addr + k) as u64))
                    is Some && u8_at(mem, Some((addr + k) as u64)) != Some(0u8) by {
                    assert(u8_at(mem, Some((addr + k) as u64)) == Some(out@[k]));
                }
            }
            return Some(out);
        }
        if a == u64::MAX {
            return None;
        }
        out.push(b);
        a += 1;
    }
}

} // verus!
