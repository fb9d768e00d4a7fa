//! The memory image and its initialization at boot.

use vstd::prelude::*;

verus! {

/// The image with every byte of `[start, end)` set to zero. Where
/// `start >= end` this is `m` itself.
pub open spec fn zero_filled(m: Seq<u8>, start: int, end: int) -> Seq<u8> {
    Seq::new(
        m.len(),
        |a: int|
            if start <= a < end {
                0u8
            } else {
                m[a]
            },
    )
}

/// The image with every byte of `[start, end)` replaced by the byte that `m`
/// holds at the same distance from `source`. Where `start >= end` this is `m`
/// itself.
pub open spec fn data_copied(m: Seq<u8>, start: int, end: int, source: int) -> Seq<u8> {
    Seq::new(
        m.len(),
        |a: int|
            if start <= a < end {
                m[source + (a - start)]
            } else {
                m[a]
            },
    )
}

/// The number of bytes in `[start, end)`.
pub open spec fn region_len(start: int, end: int) -> int {
    if start < end {
        end - start
    } else {
        0
    }
}

/// Whether `[a, a_end)` and `[b, b_end)` share no address.
pub open spec fn apart(a: int, a_end: int, b: int, b_end: int) -> bool {
    a_end <= b || b_end <= a
}

/// The little-endian 32-bit word whose first byte is at address `a`.
pub open spec fn word_at(m: Seq<u8>, a: int) -> int {
    m[a] + 256 * m[a + 1] + 65536 * m[a + 2] + 16777216 * m[a + 3]
}

/// Size in bytes of the heap that is set up behind the data region.
pub const HEAP_SIZE: usize = 1024;

/// The boundary addresses that the linker script provides: the region to
/// zero, the region of initialized data, and where the initial values of
/// that data are loaded from.
#[derive(Clone, Copy, Debug, PartialEq, Eq, Structural)]
pub struct Regions {
    /// First address of the zeroed region.
    pub sbss: usize,
    /// First address after the zeroed region.
    pub ebss: usize,
    /// First address of the data region.
    pub sdata: usize,
    /// First address after the data region.
    pub edata: usize,
    /// First address of the data region's initial values.
    pub sidata: usize,
}

impl Regions {
    /// Whether the layout can be used on an image of `len` bytes: each
    /// region that is not empty lies inside the image, and the zeroed region,
    /// the data region and the data's source share no address. An empty
    /// region asks for nothing.
    pub open spec fn fits(self, len: int) -> bool {
        &&& self.sbss < self.ebss ==> self.ebss <= len
        &&& self.sdata < self.edata ==> {
            &&& self.edata <= len
            &&& self.sidata + (self.edata - self.sdata) <= len
            &&& apart(
                self.sdata as int,
                self.edata as int,
                self.sidata as int,
                self.sidata + (self.edata - self.sdata),
            )
        }
        &&& self.sbss < self.ebss && self.sdata < self.edata ==> {
            &&& apart(self.sbss as int, self.ebss as int, self.sdata as int, self.edata as int)
            &&& apart(
                self.sbss as int,
                self.ebss as int,
                self.sidata as int,
                self.sidata + (self.edata - self.sdata),
            )
        }
    }

    /// Decides [`Regions::fits`] for an image of `len` bytes.
    pub fn fits_in(&self, len: usize) -> (ok: bool)
        ensures
            ok == self.fits(len as int),
    {
        let bss: bool = self.sbss < self.ebss;
        let data: bool = self.sdata < self.edata;
        if bss && self.ebss > len {
            return false;
        }
        if !data {
            return true;
        }
        let size: usize = self.edata - self.sdata;
        if self.edata > len || self.sidata > len || size > len - self.sidata {
            return false;
        }
        let source_end: usize = self.sidata + size;
        if !(self.edata <= self.sidata || source_end <= self.sdata) {
            return false;
        }
        if !bss {
            return true;
        }
        (self.ebss <= self.sdata || self.edata <= self.sbss) && (self.ebss <= self.sidata
            || source_end <= self.sbss)
    }

    /// The bounds of the heap: it starts where the data region ends and is
    /// [`HEAP_SIZE`] bytes long. `None` where it would run past the last
    /// address.
    pub fn heap(&self) -> (bounds: Option<(usize, usize)>)
        ensures
            bounds == if self.edata + HEAP_SIZE <= usize::MAX {
                Some((self.edata, (self.edata + HEAP_SIZE) as usize))
            } else {
                None
            },
    {
        if self.edata <= usize::MAX - HEAP_SIZE {
            Some((self.edata, self.edata + HEAP_SIZE))
        } else {
            None
        }
    }
}

/// The image after boot: the zeroed region filled with zero, then the data
/// region filled from its source.
pub open spec fn initialized(m: Seq<u8>, r: Regions) -> Seq<u8> {
    data_copied(
        zero_filled(m, r.sbss as int, r.ebss as int),
        r.sdata as int,
        r.edata as int,
        r.sidata as int,
    )
}

/// Initializing an image that was already initialized changes nothing.
pub proof fn lemma_initialize_idempotent(m: Seq<u8>, r: Regions)
    requires
        r.fits(m.len() as int),
    ensures
        initialized(initialized(m, r), r) == initialized(m, r),
{
    assert(initialized(initialized(m, r), r) =~= initialized(m, r));
}

/// A byte-addressed memory image: address `a` names the byte `bytes[a]`.
pub struct Memory {
    pub bytes: Vec<u8>,
}

impl View for Memory {
    type V = Seq<u8>;

    open spec fn view(&self) -> Seq<u8> {
        self.bytes@
    }
}

impl Memory {
    /// An image of `len` bytes, each holding `fill`.
    pub fn new(len: usize, fill: u8) -> (mem: Memory)
        ensures
            mem@.len() == len,
            forall|a: int| 0 <= a < len ==> mem@[a] == fill,
    {
        let mut bytes: Vec<u8> = Vec::new();
        let mut n: usize = 0;
        while n < len
            invariant
                n <= len,
                bytes@.len() == n,
                forall|a: int| 0 <= a < n ==> bytes@[a] == fill,
            decreases len - n,
        {
            bytes.push(fill);
            n += 1;
        }
        Memory { bytes }
    }

    /// The number of bytes in the image.
    pub fn len(&self) -> (n: usize)
        ensures
            n == self@.len(),
    {
        self.bytes.len()
    }

    /// The byte at `addr`.
    pub fn read(&self, addr: usize) -> (b: u8)
        requires
            addr < self@.len(),
        ensures
            b == self@[addr as int],
    {
        self.bytes[addr]
    }

    /// Stores `value` at `addr` and leaves every other byte as it was.
    pub fn write(&mut self, addr: usize, value: u8)
        requires
            addr < old(self)@.len(),
        ensures
            final(self)@ == old(self)@.update(addr as int, value),
    {
        self.bytes.set(addr, value);
    }

    /// The little-endian word at `addr`.
    pub fn read_word(&self, addr: usize) -> (w: u32)
        requires
            addr + 4 <= self@.len(),
        ensures
            w == word_at(self@, addr as int),
    {
        let n: usize = self.bytes.len();
        let b0: u32 = self.bytes[addr] as u32;
        let b1: u32 = self.bytes[addr + 1] as u32;
        let b2: u32 = self.bytes[addr + 2] as u32;
        let b3: u32 = self.bytes[addr + 3] as u32;
        b0 + 256 * b1 + 65536 * b2 + 16777216 * b3
    }

    /// Stores `w` at `addr` as four little-endian bytes.
    pub fn write_word(&mut self, addr: usize, w: u32)
        requires
            addr + 4 <= old(self)@.len(),
        ensures
            final(self)@.len() == old(self)@.len(),
            word_at(final(self)@, addr as int) == w,
            forall|a: int|
                0 <= a < old(self)@.len() && !(addr <= a < addr + 4) ==> final(self)@[a] == old(
                    self,
                )@[a],
    {
        let n: usize = self.bytes.len();
        self.bytes.set(addr, (w % 256) as u8);
        self.bytes.set(addr + 1, ((w / 256) % 256) as u8);
        self.bytes.set(addr + 2, ((w / 65536) % 256) as u8);
        self.bytes.set(addr + 3, (w / 16777216) as u8);
    }

    /// Writes zero to every byte of `[sbss, ebss)` and returns how many bytes
    /// it wrote. An empty region (`sbss >= ebss`) is left alone wherever it
    /// lies; a region that is not empty has to end inside the image.
    pub fn zero_bss(&mut self, sbss: usize, ebss: usize) -> (written: usize)
        requires
            sbss < ebss ==> ebss <= old(self)@.len(),
        ensures
            final(self)@ == zero_filled(old(self)@, sbss as int, ebss as int),
            written == region_len(sbss as int, ebss as int),
            sbss >= ebss ==> final(self)@ == old(self)@,
            forall|a: int| sbss <= a < ebss ==> final(self)@[a] == 0,
    {
        let mut written: usize = 0;
        let mut at: usize = sbss;
        while at < ebss
            invariant
                sbss < ebss ==> sbss <= at <= ebss <= old(self)@.len(),
                sbss >= ebss ==> at == sbss,
                written == at - sbss,
                self@ == zero_filled(old(self)@, sbss as int, at as int),
            decreases ebss - at,
        {
            self.bytes.set(at, 0u8);
            at += 1;
            written += 1;
            assert(self@ =~= zero_filled(old(self)@, sbss as int, at as int));
        }
        assert(self@ =~= zero_filled(old(self)@, sbss as int, ebss as int));
        assert(sbss >= ebss ==> self@ =~= old(self)@);
        written
    }

    /// Copies the bytes that start at `sidata` into `[sdata, edata)`, one for
    /// one, and returns how many bytes it copied; each is read once and
    /// written once. An empty region (`sdata >= edata`) is left alone and
    /// nothing is read, wherever `sidata` points. Otherwise the region and
    /// its source have to lie inside the image and apart from each other.
    pub fn init_data(&mut self, sdata: usize, edata: usize, sidata: usize) -> (copied: usize)
        requires
            sdata < edata ==> {
                &&& edata <= old(self)@.len()
                &&& sidata + (edata - sdata) <= old(self)@.len()
                &&& apart(sdata as int, edata as int, sidata as int, sidata + (edata - sdata))
            },
        ensures
            final(self)@ == data_copied(old(self)@, sdata as int, edata as int, sidata as int),
            copied == region_len(sdata as int, edata as int),
            sdata >= edata ==> final(self)@ == old(self)@,
            forall|a: int|
                sdata <= a < edata ==> final(self)@[a] == old(self)@[sidata + (a - sdata)],
            forall|a: int|
                sdata <= a < edata ==> #[trigger] final(self)@[a] == final(self)@[sidata + (a - sdata)],
    {
        let mut copied: usize = 0;
        let mut to: usize = sdata;
        let mut from: usize = sidata;
        let size: usize = self.bytes.len();
        while to < edata
            invariant
                size == old(self)@.len(),
                sdata < edata ==> {
                    &&& sdata <= to <= edata <= old(self)@.len()
                    &&& sidata + (edata - sdata) <= old(self)@.len()
                    &&& apart(sdata as int, edata as int, sidata as int, sidata + (edata - sdata))
                    &&& from == sidata + (to - sdata)
                },
                sdata >= edata ==> to == sdata,
                copied == to - sdata,
                self@ == data_copied(old(self)@, sdata as int, to as int, sidata as int),
            decreases edata - to,
        {
            let b: u8 = self.bytes[from];
            self.bytes.set(to, b);
            to += 1;
            from += 1;
            copied += 1;
            assert(self@ =~= data_copied(old(self)@, sdata as int, to as int, sidata as int));
        }
        assert(self@ =~= data_copied(old(self)@, sdata as int, edata as int, sidata as int));
        assert(sdata >= edata ==> self@ =~= old(self)@);
        copied
    }

    /// Brings the image into the state that a program expects of its
    /// statics: zeroes `[sbss, ebss)`, then fills `[sdata, edata)` from
    /// `sidata`. Every other byte, the source included, stays as it was.
    pub fn initialize(&mut self, regions: &Regions)
        requires
            regions.fits(old(self)@.len() as int),
        ensures
            final(self)@ == initialized(old(self)@, *regions),
            forall|a: int| regions.sbss <= a < regions.ebss ==> final(self)@[a] == 0,
            forall|a: int|
                regions.sdata <= a < regions.edata ==> final(self)@[a] == old(
                    self,
                )@[regions.sidata + (a - regions.sdata)],
            forall|a: int|
                0 <= a < old(self)@.len() && !(regions.sbss <= a < regions.ebss) && !(regions.sdata
                    <= a < regions.edata) ==> final(self)@[a] == old(self)@[a],
    {
        self.zero_bss(regions.sbss, regions.ebss);
        self.init_data(regions.sdata, regions.edata, regions.sidata);
    }
}

} // verus!
