//! Byte-addressable 64KB memory with little-endian word accessors and
//! optional per-256-byte-page write protection, plus the register file.

use vstd::prelude::*;

verus! {

/// Wrapping successor of a 16-bit address.
pub open spec fn wrap_inc(a: u16) -> u16 {
    a.wrapping_add(1)
}

/// The little-endian word stored at `a` (low byte at `a`, high byte at the
/// wrapping successor of `a`).
pub open spec fn word_at(m: Seq<u8>, a: u16) -> u16 {
    (m[a as int] as u16) | ((m[wrap_inc(a) as int] as u16) << 8)
}

/// Memory contents after a byte store that succeeds iff the page is writable.
pub open spec fn byte_stored(m: Seq<u8>, writable: bool, a: u16, v: u8) -> Seq<u8> {
    if writable {
        m.update(a as int, v)
    } else {
        m
    }
}

/// Memory contents after a little-endian word store. The low byte is written
/// first; when it is blocked the high byte is not attempted.
pub open spec fn word_stored(m: Seq<u8>, w_lo: bool, w_hi: bool, a: u16, v: u16) -> Seq<u8> {
    if !w_lo {
        m
    } else if !w_hi {
        m.update(a as int, (v & 0xff) as u8)
    } else {
        m.update(a as int, (v & 0xff) as u8).update(wrap_inc(a) as int, (v >> 8) as u8)
    }
}

/// Memory contents after a store of `v` at `a`, byte-wide when `bf` is set,
/// word-wide otherwise.
pub open spec fn mem_stored(m: Seq<u8>, w_lo: bool, w_hi: bool, a: u16, v: u16, bf: bool) -> Seq<
    u8,
> {
    if bf {
        byte_stored(m, w_lo, a, v as u8)
    } else {
        word_stored(m, w_lo, w_hi, a, v)
    }
}

/// The value read at `a`: one byte zero-extended when `bf` is set, a
/// little-endian word otherwise.
pub open spec fn mem_loaded(m: Seq<u8>, a: u16, bf: bool) -> u16 {
    if bf {
        m[a as int] as u16
    } else {
        word_at(m, a)
    }
}

/// Byte-granular storage with per-address write permission.
pub trait Mem: Sized {
    /// The stored bytes.
    spec fn contents(&self) -> Seq<u8>;

    /// Whether a store at `a` is allowed.
    spec fn writable_at(&self, a: u16) -> bool;

    /// Whether page protection is enabled.
    spec fn prot_enabled(&self) -> bool;

    /// Per-page write permission, consulted only under protection.
    spec fn page_map(&self) -> Seq<bool>;

    /// Structural invariant of the storage.
    spec fn well_formed(&self) -> bool;

    /// Read the byte at `addr`.
    fn loadb(&self, addr: u16) -> (b: u8)
        requires
            self.well_formed(),
        ensures
            b == self.contents()[addr as int],
    ;

    /// Write `val` at `addr`; returns false and leaves the contents unchanged
    /// when the address is not writable.
    fn storeb(&mut self, addr: u16, val: u8) -> (ok: bool)
        requires
            old(self).well_formed(),
        ensures
            final(self).well_formed(),
            ok == old(self).writable_at(addr),
            final(self).contents() == byte_stored(
                old(self).contents(),
                old(self).writable_at(addr),
                addr,
                val,
            ),
            final(self).prot_enabled() == old(self).prot_enabled(),
            final(self).page_map() == old(self).page_map(),
            forall|a: u16| #[trigger] final(self).writable_at(a) == old(self).writable_at(a),
    ;
}

/// Word-level and width-selecting accessors derived from byte storage.
pub trait MemUtil: Mem {
    /// Read the little-endian word at `addr`.
    fn loadw(&self, addr: u16) -> (w: u16)
        requires
            self.well_formed(),
        ensures
            w == word_at(self.contents(), addr),
    ;

    /// Write the little-endian word `val` at `addr`; returns false when any
    /// of the two byte stores is blocked.
    fn storew(&mut self, addr: u16, val: u16) -> (ok: bool)
        requires
            old(self).well_formed(),
        ensures
            final(self).well_formed(),
            ok == (old(self).writable_at(addr) && old(self).writable_at(wrap_inc(addr))),
            final(self).contents() == word_stored(
                old(self).contents(),
                old(self).writable_at(addr),
                old(self).writable_at(wrap_inc(addr)),
                addr,
                val,
            ),
            final(self).prot_enabled() == old(self).prot_enabled(),
            final(self).page_map() == old(self).page_map(),
            forall|a: u16| #[trigger] final(self).writable_at(a) == old(self).writable_at(a),
    ;

    /// Read a byte (zero-extended) when `byteflag` is set, a word otherwise.
    fn load(&self, addr: u16, byteflag: bool) -> (v: u16)
        requires
            self.well_formed(),
        ensures
            v == mem_loaded(self.contents(), addr, byteflag),
    ;

    /// Store a byte when `byteflag` is set, a word otherwise.
    fn store(&mut self, addr: u16, val: u16, byteflag: bool) -> (ok: bool)
        requires
            old(self).well_formed(),
        ensures
            final(self).well_formed(),
            ok == (old(self).writable_at(addr) && (byteflag || old(self).writable_at(
                wrap_inc(addr),
            ))),
            final(self).contents() == mem_stored(
                old(self).contents(),
                old(self).writable_at(addr),
                old(self).writable_at(wrap_inc(addr)),
                addr,
                val,
                byteflag,
            ),
            final(self).prot_enabled() == old(self).prot_enabled(),
            final(self).page_map() == old(self).page_map(),
            forall|a: u16| #[trigger] final(self).writable_at(a) == old(self).writable_at(a),
    ;
}

impl<M: Mem> MemUtil for M {
    fn loadw(&self, addr: u16) -> (w: u16) {
        let lo = self.loadb(addr);
        let hi = self.loadb(addr.wrapping_add(1));
        (lo as u16) | ((hi as u16) << 8)
    }

    fn storew(&mut self, addr: u16, val: u16) -> (ok: bool) {
        if self.storeb(addr, (val & 0xff) as u8) {
            self.storeb(addr.wrapping_add(1), (val >> 8) as u8)
        } else {
            false
        }
    }

    fn load(&self, addr: u16, byteflag: bool) -> (v: u16) {
        if byteflag {
            self.loadb(addr) as u16
        } else {
            self.loadw(addr)
        }
    }

    fn store(&mut self, addr: u16, val: u16, byteflag: bool) -> (ok: bool) {
        if byteflag {
            self.storeb(addr, val as u8)
        } else {
            self.storew(addr, val)
        }
    }
}

/// Whether a store at `a` is allowed under the protection state of `v`.
pub open spec fn ramv_writable(v: RamV, a: u16) -> bool {
    !v.prot || v.pages[(a >> 8) as int]
}

/// The bytes of `v` after its first `n` image bytes have been copied in,
/// one byte store at a time from `base` upward, each consulting protection.
/// Meaningful when `base + img.len()` does not exceed the address space.
pub open spec fn bytes_copied(v: RamV, base: u16, img: Seq<u8>, n: nat) -> Seq<u8>
    decreases n,
{
    if n == 0 {
        v.bytes
    } else {
        let prev = bytes_copied(v, base, img, (n - 1) as nat);
        let a = (base + n - 1) as u16;
        if ramv_writable(v, a) {
            prev.update(a as int, img[n - 1])
        } else {
            prev
        }
    }
}

/// Abstract value of a [`Ram`]: its bytes and its protection state.
#[verifier::ext_equal]
pub struct RamV {
    /// The 0x10000 stored bytes.
    pub bytes: Seq<u8>,
    /// Whether page protection is enabled.
    pub prot: bool,
    /// Per-256-byte-page write permission, consulted only when `prot` is set.
    pub pages: Seq<bool>,
}

/// 64KB of byte-addressable memory with optional page protection. Protection
/// is disabled on creation; while disabled every store succeeds.
pub struct Ram {
    bytes: Vec<u8>,
    prot: bool,
    pages: Vec<bool>,
}

impl View for Ram {
    type V = RamV;

    closed spec fn view(&self) -> RamV {
        RamV { bytes: self.bytes@, prot: self.prot, pages: self.pages@ }
    }
}

impl Mem for Ram {
    open spec fn contents(&self) -> Seq<u8> {
        self@.bytes
    }

    open spec fn writable_at(&self, a: u16) -> bool {
        ramv_writable(self@, a)
    }

    open spec fn prot_enabled(&self) -> bool {
        self@.prot
    }

    open spec fn page_map(&self) -> Seq<bool> {
        self@.pages
    }

    open spec fn well_formed(&self) -> bool {
        self@.bytes.len() == 0x10000 && self@.pages.len() == 0x100
    }

    fn loadb(&self, addr: u16) -> (b: u8) {
        self.bytes[addr as usize]
    }

    fn storeb(&mut self, addr: u16, val: u8) -> (ok: bool) {
        proof {
            assert((addr >> 8) < 0x100) by (bit_vector);
        }
        if self.prot && !self.pages[(addr >> 8) as usize] {
            false
        } else {
            self.bytes.set(addr as usize, val);
            true
        }
    }
}

impl Ram {
    /// Fresh zero-filled memory with protection disabled.
    pub fn new() -> (r: Ram)
        ensures
            r.well_formed(),
            !r@.prot,
            forall|i: int| 0 <= i < 0x10000 ==> r@.bytes[i] == 0u8,
            forall|i: int| 0 <= i < 0x100 ==> !r@.pages[i],
    {
        let mut bytes: Vec<u8> = Vec::new();
        let mut i: usize = 0;
        while i < 0x10000
            invariant
                i <= 0x10000,
                bytes@.len() == i,
                forall|j: int| 0 <= j < i ==> bytes@[j] == 0u8,
            decreases 0x10000 - i,
        {
            bytes.push(0u8);
            i = i + 1;
        }
        let mut pages: Vec<bool> = Vec::new();
        let mut p: usize = 0;
        while p < 0x100
            invariant
                p <= 0x100,
                pages@.len() == p,
                forall|j: int| 0 <= j < p ==> !pages@[j],
            decreases 0x100 - p,
        {
            pages.push(false);
            p = p + 1;
        }
        Ram { bytes, prot: false, pages }
    }

    /// Enable or disable page protection.
    pub fn set_protection(&mut self, on: bool)
        requires
            old(self).well_formed(),
        ensures
            final(self).well_formed(),
            final(self)@ == (RamV { prot: on, ..old(self)@ }),
    {
        self.prot = on;
    }

    /// Copy an image into memory starting at the fixed load address 0x4400,
    /// one byte store at a time, each consulting page protection.
    pub fn loadimage(&mut self, image: &[u8])
        requires
            old(self).well_formed(),
            image@.len() <= 0xbc00,
        ensures
            final(self).well_formed(),
            final(self)@.prot == old(self)@.prot,
            final(self)@.pages == old(self)@.pages,
            final(self)@.bytes == bytes_copied(old(self)@, 0x4400, image@, image@.len()),
    {
        let mut i: usize = 0;
        while i < image.len()
            invariant
                old(self).well_formed(),
                self.well_formed(),
                i <= image@.len(),
                image@.len() <= 0xbc00,
                self@.prot == old(self)@.prot,
                self@.pages == old(self)@.pages,
                self@.bytes == bytes_copied(old(self)@, 0x4400, image@, i as nat),
                forall|a: u16| #[trigger] self.writable_at(a) == old(self).writable_at(a),
            decreases image@.len() - i,
        {
            let b = image[i];
            self.storeb(0x4400 + (i as u16), b);
            i = i + 1;
        }
    }

    /// Mark one 256-byte page writable or read-only under protection.
    pub fn set_page_writable(&mut self, page: u8, w: bool)
        requires
            old(self).well_formed(),
        ensures
            final(self).well_formed(),
            final(self)@ == (RamV { pages: old(self)@.pages.update(page as int, w), ..old(self)@ }),
    {
        self.pages.set(page as usize, w);
    }
}

/// Storing a word and loading it back at the same address yields the stored
/// word, at every address (the high byte wraps at the top of the address
/// space) and for every word, whenever both byte stores are allowed.
pub proof fn lemma_word_round_trip(m: Seq<u8>, addr: u16, val: u16)
    requires
        m.len() == 0x10000,
    ensures
        word_at(word_stored(m, true, true, addr, val), addr) == val,
{
    let m1 = word_stored(m, true, true, addr, val);
    assert(wrap_inc(addr) != addr);
    assert(m1[addr as int] == (val & 0xff) as u8);
    assert(m1[wrap_inc(addr) as int] == (val >> 8) as u8);
    assert((((val & 0xff) as u8) as u16) | ((((val >> 8) as u8) as u16) << 8) == val)
        by (bit_vector);
}

/// The 16 general 16-bit registers. Register 0 is the program counter,
/// register 1 the stack pointer, register 2 the status register, register 3
/// the constant generator; the callers uphold those conventions.
pub struct Regs {
    arr: Vec<u16>,
}

impl View for Regs {
    type V = Seq<u16>;

    closed spec fn view(&self) -> Seq<u16> {
        self.arr@
    }
}

impl Regs {
    /// Structural invariant: exactly 16 registers.
    pub open spec fn well_formed(&self) -> bool {
        self@.len() == 16
    }

    /// Read register `addr`.
    pub fn load(&self, addr: u8) -> (v: u16)
        requires
            self.well_formed(),
            addr < 16,
        ensures
            v == self@[addr as int],
    {
        self.arr[addr as usize]
    }

    /// Write register `addr`.
    pub fn store(&mut self, addr: u8, val: u16)
        requires
            old(self).well_formed(),
            addr < 16,
        ensures
            final(self).well_formed(),
            final(self)@ == old(self)@.update(addr as int, val),
    {
        self.arr.set(addr as usize, val);
    }

    /// Fresh register file, all registers zero.
    pub fn new() -> (r: Regs)
        ensures
            r.well_formed(),
            forall|i: int| 0 <= i < 16 ==> r@[i] == 0u16,
    {
        let mut arr: Vec<u16> = Vec::new();
        let mut i: usize = 0;
        while i < 16
            invariant
                i <= 16,
                arr@.len() == i,
                forall|j: int| 0 <= j < i ==> arr@[j] == 0u16,
            decreases 16 - i,
        {
            arr.push(0u16);
            i = i + 1;
        }
        Regs { arr }
    }
}

} // verus!
