//! Loading a 32-bit RISC-V executable image into the simulated memory, and
//! locating the `pass`/`fail` symbols that the conformance-test harness
//! watches the program counter against.
//!
//! The container format is fixed-width and little-endian throughout.  Every
//! field read is bounds-checked, a malformed image is reported instead of
//! trusted, and nothing is copied into memory until the whole program-header
//! table has been validated.

use vstd::prelude::*;
use crate::constants::MEMSIZE;
use crate::constants::START_ADDR;
use crate::cpu::Core;

verus! {

/// The little-endian 16-bit value at byte offset `i`.
pub open spec fn le16_at(e: Seq<u8>, i: int) -> u32 {
    ((e[i + 1] as u32) << 8u32) | (e[i] as u32)
}

/// The little-endian 32-bit value at byte offset `i`.
pub open spec fn le32_at(e: Seq<u8>, i: int) -> u32 {
    ((e[i + 3] as u32) << 24u32) | ((e[i + 2] as u32) << 16u32) | ((e[i + 1] as u32) << 8u32) | (
    e[i] as u32)
}

/// Reads the little-endian 32-bit value at `i`.
pub fn take4(elf: &Vec<u8>, i: usize) -> (r: u32)
    requires
        i + 3 < elf.len(),
    ensures
        r == le32_at(elf@, i as int),
{
    ((elf[i + 3] as u32) << 24u32) | ((elf[i + 2] as u32) << 16u32) | ((elf[i + 1] as u32)
        << 8u32) | (elf[i] as u32)
}

/// Reads the little-endian 16-bit value at `i`.
pub fn take2(elf: &Vec<u8>, i: usize) -> (r: u32)
    requires
        i + 1 < elf.len(),
    ensures
        r == le16_at(elf@, i as int),
        r < 0x1_0000,
{
    let b0 = elf[i];
    let b1 = elf[i + 1];
    proof {
        assert(((b1 as u32) << 8u32) | (b0 as u32) < 0x1_0000) by (bit_vector);
    }
    ((b1 as u32) << 8u32) | (b0 as u32)
}

/// Why an image was rejected.
#[derive(Clone, Copy, Debug, PartialEq, Eq)]
pub enum ElfError {
    /// The image is too short for the fields the loader reads.
    Truncated,
    /// The magic number is wrong.
    NotElf,
    /// The image is not a 32-bit executable.
    Not32Bit,
    /// The image is not for the RISC-V architecture.
    NotRiscv,
    /// A program-header entry lies outside the image, or its segment does
    /// not fit between the load address and the end of memory.
    SegmentOutOfRange,
}

/// Offset of the program-header table.
pub open spec fn phoff(e: Seq<u8>) -> int {
    le32_at(e, 0x1c) as int
}

/// Size of one program-header entry.
pub open spec fn phentsize(e: Seq<u8>) -> int {
    le16_at(e, 0x2a) as int
}

/// Number of program-header entries.
pub open spec fn phnum(e: Seq<u8>) -> int {
    le16_at(e, 0x2c) as int
}

/// Offset of program-header entry `j`.
pub open spec fn seg_base(e: Seq<u8>, j: int) -> int {
    phoff(e) + j * phentsize(e)
}

/// File offset of segment `j`'s bytes.
pub open spec fn seg_offset(e: Seq<u8>, j: int) -> int {
    le32_at(e, seg_base(e, j) + 0x04) as int
}

/// Virtual load address of segment `j`.
pub open spec fn seg_vaddr(e: Seq<u8>, j: int) -> int {
    le32_at(e, seg_base(e, j) + 0x08) as int
}

/// Memory size of segment `j`.
pub open spec fn seg_memsz(e: Seq<u8>, j: int) -> int {
    le32_at(e, seg_base(e, j) + 0x14) as int
}

/// The first four bytes are the magic number.
pub open spec fn magic_ok(e: Seq<u8>) -> bool {
    e[0] == 0x7f && e[1] == 0x45 && e[2] == 0x4c && e[3] == 0x46
}

/// Segment `j` can be read from the image and copied into memory: its
/// header entry and its bytes lie inside the image, and its address range
/// sits between the load address and the end of memory.
pub open spec fn seg_ok(e: Seq<u8>, j: int) -> bool {
    &&& seg_base(e, j) + 0x18 <= e.len()
    &&& seg_offset(e, j) + seg_memsz(e, j) <= e.len()
    &&& seg_vaddr(e, j) >= START_ADDR
    &&& seg_vaddr(e, j) - START_ADDR + seg_memsz(e, j) <= MEMSIZE
}

/// Every segment of the image is loadable.
pub open spec fn segs_ok(e: Seq<u8>) -> bool {
    forall|j: int| 0 <= j < phnum(e) ==> seg_ok(e, j)
}

/// What the loader decides for a given image, checked in the order the
/// header fields are read.
pub open spec fn load_decision(e: Seq<u8>) -> Result<(), ElfError> {
    if e.len() < 0x34 {
        Err(ElfError::Truncated)
    } else if !magic_ok(e) {
        Err(ElfError::NotElf)
    } else if e[0x04] != 1 {
        Err(ElfError::Not32Bit)
    } else if e[0x12] != 0xf3 {
        Err(ElfError::NotRiscv)
    } else if !segs_ok(e) {
        Err(ElfError::SegmentOutOfRange)
    } else {
        Ok(())
    }
}

/// Memory after segment `j` is copied in: the segment's bytes overlay the
/// range starting at its load offset; everything else is unchanged.
pub open spec fn seg_loaded(e: Seq<u8>, mem: Seq<u8>, j: int) -> Seq<u8> {
    let va = seg_vaddr(e, j) - START_ADDR;
    let off = seg_offset(e, j);
    let n = seg_memsz(e, j);
    Seq::new(mem.len(), |k: int| if va <= k < va + n {
        e[off + (k - va)]
    } else {
        mem[k]
    })
}

/// Memory after the first `j` segments are copied in, in table order.
pub open spec fn load_upto(e: Seq<u8>, mem: Seq<u8>, j: int) -> Seq<u8>
    decreases j,
{
    if j <= 0 {
        mem
    } else {
        seg_loaded(e, load_upto(e, mem, j - 1), j - 1)
    }
}

/// Memory after segment `j`'s first `i` bytes are copied in.
spec fn seg_prefix_loaded(e: Seq<u8>, mem: Seq<u8>, j: int, i: int) -> Seq<u8> {
    let va = seg_vaddr(e, j) - START_ADDR;
    let off = seg_offset(e, j);
    Seq::new(mem.len(), |k: int| if va <= k < va + i {
        e[off + (k - va)]
    } else {
        mem[k]
    })
}

/// Validates an executable image and copies its program-header segments
/// into the simulated memory at their load offsets.
///
/// The registers and CSRs are never touched.  A malformed image — wrong
/// magic number, word size or architecture, or a segment that does not fit —
/// is rejected as `load_decision` says, and then the memory is untouched
/// too: nothing is copied until the whole table has been validated.
#[verifier::loop_isolation(false)]
pub fn load_elf(core: &mut Core, elf: &Vec<u8>) -> (r: Result<(), ElfError>)
    requires
        old(core)@.mem.len() == MEMSIZE,
    ensures
        final(core)@.regs == old(core)@.regs,
        final(core)@.csrs == old(core)@.csrs,
        final(core)@.trap == old(core)@.trap,
        r == load_decision(elf@),
        r is Ok ==> final(core)@.mem == load_upto(elf@, old(core)@.mem, phnum(elf@)),
        r is Err ==> final(core)@.mem == old(core)@.mem,
{
    let len: usize = elf.len();
    if len < 0x34 {
        return Err(ElfError::Truncated);
    }
    if !(elf[0] == 0x7f && elf[1] == 0x45 && elf[2] == 0x4c && elf[3] == 0x46) {
        return Err(ElfError::NotElf);
    }
    if elf[0x04] != 1 {
        return Err(ElfError::Not32Bit);
    }
    if elf[0x12] != 0xf3 {
        return Err(ElfError::NotRiscv);
    }
    let e_phentsize: u64 = take2(elf, 0x2a) as u64;
    let e_phnum: u64 = take2(elf, 0x2c) as u64;
    let e_phoff: u64 = take4(elf, 0x1c) as u64;

    // First pass: validate every program-header entry and its segment.
    let mut j: u64 = 0;
    while j < e_phnum
        invariant
            e_phentsize == phentsize(elf@),
            e_phnum == phnum(elf@),
            e_phoff == phoff(elf@),
            e_phentsize < 0x1_0000,
            e_phnum < 0x1_0000,
            len == elf@.len(),
            j <= e_phnum,
            core@ == old(core)@,
            forall|jj: int| 0 <= jj < j ==> seg_ok(elf@, jj),
        decreases e_phnum - j,
    {
        proof {
            assert(j * e_phentsize < 0x1_0000_0000) by (nonlinear_arith)
                requires
                    0 <= j < 0x1_0000 && 0 <= e_phentsize < 0x1_0000,
            ;
        }
        let base: u64 = e_phoff + j * e_phentsize;
        if base + 0x18 > len as u64 {
            proof {
                assert(!seg_ok(elf@, j as int));
                assert(!segs_ok(elf@));
            }
            return Err(ElfError::SegmentOutOfRange);
        }
        let b: usize = base as usize;
        let p_offset = take4(elf, b + 0x04);
        let p_vaddr = take4(elf, b + 0x08);
        let p_memsz = take4(elf, b + 0x14);
        if !(p_offset as u64 + p_memsz as u64 <= len as u64 && p_vaddr >= START_ADDR && (p_vaddr
            - START_ADDR) as u64 + p_memsz as u64 <= MEMSIZE as u64) {
            proof {
                assert(!seg_ok(elf@, j as int));
                assert(!segs_ok(elf@));
            }
            return Err(ElfError::SegmentOutOfRange);
        }
        assert(seg_ok(elf@, j as int));
        j = j + 1;
    }

    // Second pass: copy each segment into memory.
    let ghost m0 = core@.mem;
    let mut j: u64 = 0;
    while j < e_phnum
        invariant
            e_phentsize == phentsize(elf@),
            e_phnum == phnum(elf@),
            e_phoff == phoff(elf@),
            e_phentsize < 0x1_0000,
            e_phnum < 0x1_0000,
            len == elf@.len(),
            j <= e_phnum,
            core@.mem.len() == MEMSIZE,
            forall|jj: int| 0 <= jj < e_phnum ==> seg_ok(elf@, jj),
            core@.mem == load_upto(elf@, m0, j as int),
            core@.regs == old(core)@.regs,
            core@.csrs == old(core)@.csrs,
            core@.trap == old(core)@.trap,
        decreases e_phnum - j,
    {
        assert(seg_ok(elf@, j as int));
        proof {
            assert(j * e_phentsize < 0x1_0000_0000) by (nonlinear_arith)
                requires
                    0 <= j < 0x1_0000 && 0 <= e_phentsize < 0x1_0000,
            ;
        }
        let base: u64 = e_phoff + j * e_phentsize;
        let b: usize = base as usize;
        let p_offset = take4(elf, b + 0x04);
        let p_vaddr = take4(elf, b + 0x08);
        let p_memsz = take4(elf, b + 0x14);
        let va: usize = (p_vaddr - START_ADDR) as usize;
        let ghost mj = core@.mem;
        proof {
            assert(seg_prefix_loaded(elf@, mj, j as int, 0) =~= mj);
        }
        let mut i: usize = 0;
        while i < p_memsz as usize
            invariant
                seg_ok(elf@, j as int),
                len == elf@.len(),
                core@.mem.len() == MEMSIZE,
                p_offset == seg_offset(elf@, j as int),
                p_vaddr == seg_vaddr(elf@, j as int),
                p_memsz == seg_memsz(elf@, j as int),
                va == seg_vaddr(elf@, j as int) - START_ADDR,
                i <= p_memsz,
                core@.mem == seg_prefix_loaded(elf@, mj, j as int, i as int),
                core@.regs == old(core)@.regs,
                core@.csrs == old(core)@.csrs,
                core@.trap == old(core)@.trap,
            decreases p_memsz - i,
        {
            core.memory[va + i] = elf[p_offset as usize + i];
            proof {
                assert(core@.mem =~= seg_prefix_loaded(elf@, mj, j as int, i + 1));
            }
            i = i + 1;
        }
        proof {
            assert(seg_prefix_loaded(elf@, mj, j as int, p_memsz as int) =~= seg_loaded(
                elf@,
                mj,
                j as int,
            ));
        }
        j = j + 1;
    }
    Ok(())
}

// Locating the conformance-test symbols.

/// Why the pass/fail symbols could not be produced.
#[derive(Clone, Copy, Debug, PartialEq, Eq)]
pub enum SymbolError {
    /// The image is too short for the section or symbol tables it declares.
    Truncated,
    /// No symbol-table section exists.
    NoSymtab,
    /// The symbol table declares a zero entry size.
    BadSymtab,
    /// No symbol named `pass`, or none named `fail`, was found.
    SymbolNotFound,
    /// A found symbol lies below the architectural load address.
    AddrOutOfRange,
}

/// Offset of the section-header table.
pub open spec fn shoff(e: Seq<u8>) -> int {
    le32_at(e, 0x20) as int
}

/// Size of one section-header entry.
pub open spec fn shentsize(e: Seq<u8>) -> int {
    le16_at(e, 0x2e) as int
}

/// Number of section-header entries.
pub open spec fn shnum(e: Seq<u8>) -> int {
    le16_at(e, 0x30) as int
}

/// Index of the section-name string-table section.
pub open spec fn shstrndx(e: Seq<u8>) -> int {
    le16_at(e, 0x32) as int
}

/// Where the file offset of the section-name string table is read from:
/// the `sh_offset` field of the section-header entry at `shstrndx`.
pub open spec fn shstrtab_pos(e: Seq<u8>) -> int {
    shoff(e) + shentsize(e) * shstrndx(e) + 0x10
}

/// File offset of the section-name string table.
pub open spec fn shstrtab(e: Seq<u8>) -> u32 {
    le32_at(e, shstrtab_pos(e))
}

/// Offset of section-header entry `j`.
pub open spec fn sec_base(e: Seq<u8>, j: int) -> int {
    shoff(e) + j * shentsize(e)
}

/// The `sh_name` field of section `j`.
pub open spec fn sh_name(e: Seq<u8>, j: int) -> u32 {
    le32_at(e, sec_base(e, j))
}

/// The `sh_type` field of section `j`.
pub open spec fn sh_type(e: Seq<u8>, j: int) -> u32 {
    le32_at(e, sec_base(e, j) + 0x04)
}

/// The `sh_offset` field of section `j`.
pub open spec fn sh_offset(e: Seq<u8>, j: int) -> u32 {
    le32_at(e, sec_base(e, j) + 0x10)
}

/// The `sh_size` field of section `j`.
pub open spec fn sh_size(e: Seq<u8>, j: int) -> u32 {
    le32_at(e, sec_base(e, j) + 0x14)
}

/// The `sh_entsize` field of section `j`.
pub open spec fn sh_entsize(e: Seq<u8>, j: int) -> u32 {
    le32_at(e, sec_base(e, j) + 0x24)
}

/// The string table of section names, and every section-header entry, can
/// be read from the image.
pub open spec fn sections_in_range(e: Seq<u8>) -> bool {
    &&& 0 <= shstrtab_pos(e)
    &&& shstrtab_pos(e) + 3 < e.len()
    &&& forall|j: int| 0 <= j < shnum(e) ==> sec_base(e, j) + 0x28 <= e.len()
}

/// The NUL-terminated string at offset `i` is exactly `pat`.
pub open spec fn name_matches(e: Seq<u8>, i: int, pat: Seq<u8>) -> bool {
    &&& 0 <= i
    &&& i + pat.len() < e.len()
    &&& forall|t: int| 0 <= t < pat.len() ==> e[i + t] == pat[t]
    &&& e[i + pat.len()] == 0
}

/// The bytes of `.strtab`.
pub open spec fn strtab_section_name() -> Seq<u8> {
    seq![0x2eu8, 0x73u8, 0x74u8, 0x72u8, 0x74u8, 0x61u8, 0x62u8]
}

/// The bytes of `pass`.
pub open spec fn pass_name() -> Seq<u8> {
    seq![0x70u8, 0x61u8, 0x73u8, 0x73u8]
}

/// The bytes of `fail`.
pub open spec fn fail_name() -> Seq<u8> {
    seq![0x66u8, 0x61u8, 0x69u8, 0x6cu8]
}

/// The offset, size and entry size of the last symbol-table section among
/// the first `j` sections, if any.
pub open spec fn last_symtab(e: Seq<u8>, j: int) -> Option<(u32, u32, u32)>
    decreases j,
{
    if j <= 0 {
        None
    } else if sh_type(e, j - 1) == 2 {
        Some((sh_offset(e, j - 1), sh_size(e, j - 1), sh_entsize(e, j - 1)))
    } else {
        last_symtab(e, j - 1)
    }
}

/// The offset of the last string-table section named `.strtab` among the
/// first `j` sections; 0 when none exists.
pub open spec fn last_strtab(e: Seq<u8>, j: int) -> u32
    decreases j,
{
    if j <= 0 {
        0
    } else if sh_type(e, j - 1) == 3 && name_matches(
        e,
        shstrtab(e) + sh_name(e, j - 1),
        strtab_section_name(),
    ) {
        sh_offset(e, j - 1)
    } else {
        last_strtab(e, j - 1)
    }
}

/// The value of the first of `n` symbol-table entries, starting at `base`
/// and spaced `es` bytes apart, whose name in the string table at `strtab`
/// is `pat`.  The search stops at an entry that cannot be read.
pub open spec fn find_sym(e: Seq<u8>, base: int, es: int, n: int, strtab: int, pat: Seq<u8>) -> Option<
    u32,
>
    decreases n,
{
    if n <= 0 {
        None
    } else if !(0 <= base && base + 8 <= e.len()) {
        None
    } else if le32_at(e, base) != 0 && name_matches(e, strtab + le32_at(e, base), pat) {
        Some(le32_at(e, base + 4))
    } else {
        find_sym(e, base + es, es, n - 1, strtab, pat)
    }
}

/// What the symbol search produces for a given image.
pub open spec fn tests_addrs_decision(e: Seq<u8>) -> Result<(u32, u32), SymbolError> {
    if e.len() < 0x34 {
        Err(SymbolError::Truncated)
    } else if !sections_in_range(e) {
        Err(SymbolError::Truncated)
    } else {
        match last_symtab(e, shnum(e)) {
            None => Err(SymbolError::NoSymtab),
            Some((soff, ssize, sentsize)) => {
                if sentsize == 0 {
                    Err(SymbolError::BadSymtab)
                } else {
                    let n = ssize / sentsize;
                    let strt = last_strtab(e, shnum(e));
                    let p = find_sym(e, soff as int, sentsize as int, n as int, strt as int, pass_name());
                    let f = find_sym(e, soff as int, sentsize as int, n as int, strt as int, fail_name());
                    match (p, f) {
                        (Some(pv), Some(fv)) => {
                            if pv < START_ADDR || fv < START_ADDR {
                                Err(SymbolError::AddrOutOfRange)
                            } else {
                                Ok((((pv - START_ADDR) as u32), ((fv - START_ADDR) as u32)))
                            }
                        },
                        _ => Err(SymbolError::SymbolNotFound),
                    }
                }
            },
        }
    }
}

/// Whether the NUL-terminated string at offset `i` is exactly `pat`.
#[verifier::loop_isolation(false)]
fn cstr_matches(elf: &Vec<u8>, i: u64, pat: &Vec<u8>) -> (r: bool)
    requires
        i <= 0x8_0000_0000,
        pat@.len() <= 8,
    ensures
        r == name_matches(elf@, i as int, pat@),
{
    let len = elf.len();
    let plen = pat.len();
    if !(i + (plen as u64) < len as u64) {
        return false;
    }
    let base: usize = i as usize;
    let mut t: usize = 0;
    while t < plen
        invariant
            i + plen < len,
            base == i,
            plen == pat@.len(),
            len == elf@.len(),
            t <= plen,
            forall|tt: int| 0 <= tt < t ==> elf@[i + tt] == pat@[tt],
        decreases plen - t,
    {
        if elf[base + t] != pat[t] {
            return false;
        }
        t = t + 1;
    }
    elf[base + plen] == 0
}

/// Searches `n` symbol-table entries for the first whose name is `pat`,
/// returning its value field.
#[verifier::loop_isolation(false)]
fn find_symbol(elf: &Vec<u8>, base: u64, es: u64, n: u64, strtab: u64, pat: &Vec<u8>) -> (r: Option<
    u32,
>)
    requires
        1 <= es <= 0xffff_ffff,
        base <= 0xffff_ffff,
        n * es <= 0x1_0000_0000,
        strtab <= 0xffff_ffff,
        pat@.len() <= 8,
    ensures
        r == find_sym(elf@, base as int, es as int, n as int, strtab as int, pat@),
{
    let len = elf.len();
    let mut b: u64 = base;
    let mut m: u64 = n;
    while m > 0
        invariant
            1 <= es <= 0xffff_ffff,
            strtab <= 0xffff_ffff,
            len == elf@.len(),
            m <= n,
            b == base + (n - m) * es,
            b <= base + n * es,
            n * es <= 0x1_0000_0000,
            pat@.len() <= 8,
            find_sym(elf@, base as int, es as int, n as int, strtab as int, pat@) == find_sym(
                elf@,
                b as int,
                es as int,
                m as int,
                strtab as int,
                pat@,
            ),
        decreases m,
    {
        if !(b + 8 <= len as u64) {
            return None;
        }
        let st_name = take4(elf, b as usize);
        let st_value = take4(elf, b as usize + 4);
        if st_name != 0 && cstr_matches(elf, strtab + st_name as u64, pat) {
            return Some(st_value);
        }
        proof {
            assert((n - (m - 1)) * es == (n - m) * es + es) by (nonlinear_arith);
            assert((n - m) * es >= 0) by (nonlinear_arith)
                requires
                    0 <= n - m && es >= 1,
            ;
            assert((n - (m - 1)) * es <= n * es) by (nonlinear_arith)
                requires
                    0 <= n - (m - 1) <= n && es >= 1,
            ;
        }
        b = b + es;
        m = m - 1;
    }
    None
}

/// Locates the `pass` and `fail` symbols of a conformance-test image and
/// returns their addresses as offsets into the simulated memory.
///
/// The section-header table is scanned for the last symbol-table section
/// and the last string-table section named `.strtab`; the symbol table is
/// then searched for the first symbols named `pass` and `fail`.  A table
/// that cannot be read, a missing symbol, and an address below the load
/// address are each reported as their own error.
#[verifier::loop_isolation(false)]
pub fn get_riscv_tests_addrs(elf: &Vec<u8>) -> (r: Result<(u32, u32), SymbolError>)
    ensures
        r == tests_addrs_decision(elf@),
{
    let len = elf.len();
    if len < 0x34 {
        return Err(SymbolError::Truncated);
    }
    let e_shoff: u64 = take4(elf, 0x20) as u64;
    let e_shentsize: u64 = take2(elf, 0x2e) as u64;
    let e_shnum: u64 = take2(elf, 0x30) as u64;
    let e_shstrndx: u64 = take2(elf, 0x32) as u64;
    proof {
        assert(e_shentsize * e_shstrndx < 0x1_0000_0000) by (nonlinear_arith)
            requires
                0 <= e_shentsize < 0x1_0000 && 0 <= e_shstrndx < 0x1_0000,
        ;
    }
    let strtab_pos: u64 = e_shoff + e_shentsize * e_shstrndx + 0x10;
    if !(strtab_pos + 3 < len as u64) {
        proof {
            assert(!sections_in_range(elf@));
        }
        return Err(SymbolError::Truncated);
    }
    let e_shstrtab = take4(elf, strtab_pos as usize);

    let mut symtab: Option<(u32, u32, u32)> = None;
    let mut strt: u32 = 0;
    let mut j: u64 = 0;
    while j < e_shnum
        invariant
            j <= e_shnum,
            symtab == last_symtab(elf@, j as int),
            strt == last_strtab(elf@, j as int),
            forall|jj: int| 0 <= jj < j ==> sec_base(elf@, jj) + 0x28 <= elf@.len(),
        decreases e_shnum - j,
    {
        proof {
            assert(j * e_shentsize < 0x1_0000_0000) by (nonlinear_arith)
                requires
                    0 <= j < 0x1_0000 && 0 <= e_shentsize < 0x1_0000,
            ;
        }
        let base: u64 = e_shoff + j * e_shentsize;
        if !(base + 0x28 <= len as u64) {
            proof {
                assert(sec_base(elf@, j as int) + 0x28 > elf@.len());
                assert(!sections_in_range(elf@));
            }
            return Err(SymbolError::Truncated);
        }
        let b: usize = base as usize;
        let s_name = take4(elf, b);
        let s_type = take4(elf, b + 0x04);
        let s_offset = take4(elf, b + 0x10);
        let s_size = take4(elf, b + 0x14);
        let s_entsize = take4(elf, b + 0x24);
        if s_type == 2 {
            symtab = Some((s_offset, s_size, s_entsize));
        } else if s_type == 3 {
            let mut pat: Vec<u8> = Vec::new();
            pat.push(0x2e);
            pat.push(0x73);
            pat.push(0x74);
            pat.push(0x72);
            pat.push(0x74);
            pat.push(0x61);
            pat.push(0x62);
            proof {
                assert(pat@ =~= strtab_section_name());
            }
            if cstr_matches(elf, e_shstrtab as u64 + s_name as u64, &pat) {
                strt = s_offset;
            }
        }
        j = j + 1;
    }
    let (soff, ssize, sentsize) = match symtab {
        None => {
            return Err(SymbolError::NoSymtab);
        },
        Some(t) => t,
    };
    if sentsize == 0 {
        return Err(SymbolError::BadSymtab);
    }
    let n: u32 = ssize / sentsize;
    proof {
        assert((n as int) * (sentsize as int) <= ssize as int) by (nonlinear_arith)
            requires
                n == ssize as int / sentsize as int && sentsize >= 1 && ssize >= 0,
        ;
    }
    let mut pat: Vec<u8> = Vec::new();
    pat.push(0x70);
    pat.push(0x61);
    pat.push(0x73);
    pat.push(0x73);
    proof {
        assert(pat@ =~= pass_name());
    }
    let p = find_symbol(elf, soff as u64, sentsize as u64, n as u64, strt as u64, &pat);
    let mut pat2: Vec<u8> = Vec::new();
    pat2.push(0x66);
    pat2.push(0x61);
    pat2.push(0x69);
    pat2.push(0x6c);
    proof {
        assert(pat2@ =~= fail_name());
    }
    let f = find_symbol(elf, soff as u64, sentsize as u64, n as u64, strt as u64, &pat2);
    match (p, f) {
        (Some(pv), Some(fv)) => {
            if pv < START_ADDR || fv < START_ADDR {
                Err(SymbolError::AddrOutOfRange)
            } else {
                Ok((pv - START_ADDR, fv - START_ADDR))
            }
        },
        _ => Err(SymbolError::SymbolNotFound),
    }
}

} // verus!
