//! The hook engine's byte-level core: 5-byte relative-jump patches and the
//! 10-byte trampolines that replay a patched prologue.
//!
//! A hook overwrites exactly five bytes at the target address with a one-byte
//! relative-jump opcode followed by a 4-byte little-endian signed
//! displacement, measured from the address just past the instruction.  A
//! trampoline block holds the five stolen original bytes followed by such a
//! jump back to the first untouched byte of the original function.  The
//! unverified shell performs the actual page-protection changes and memory
//! copies; everything it writes is computed and specified here.

use vstd::prelude::*;

verus! {

/// Opcode of the 5-byte relative-jump instruction used for patching.
pub const JMP_REL_32: u8 = 0xe9;

/// Number of bytes a hook patch overwrites at the target address.
pub const PATCH_LEN: usize = 5;

/// Number of meaningful bytes in a trampoline block.
pub const TRAMPOLINE_LEN: usize = 10;

/// Size of the executable block allocated for a trampoline: ample headroom
/// for the ten bytes actually used.
pub const TRAMPOLINE_ALLOC_SIZE: usize = 1024;

/// Offset of the intercepted function inside the target image (an externally
/// supplied constant; its discovery is outside this crate's scope).
pub const HEALTH_FN_OFFSET: usize = 0x3c641;

/// Offset of the slot holding the target object's address inside the image
/// (externally supplied, like `HEALTH_FN_OFFSET`).
pub const THIS_OFFSET: usize = 0x124d380;

/// Value of four bytes read as one little-endian 32-bit group.
pub open spec fn u32_of_le(b: Seq<u8>) -> int {
    b[0] + 0x100 * b[1] + 0x10000 * b[2] + 0x1000000 * b[3]
}

/// The four little-endian bytes of a 32-bit value `v` (`0 <= v < 2^32`).
pub open spec fn le32(v: int) -> Seq<u8> {
    seq![
        (v % 0x100) as u8,
        ((v / 0x100) % 0x100) as u8,
        ((v / 0x10000) % 0x100) as u8,
        ((v / 0x1000000) % 0x100) as u8,
    ]
}

/// Signed reading of a 32-bit value: two's complement.
pub open spec fn signed32(v: int) -> int {
    if v < 0x8000_0000 {
        v
    } else {
        v - 0x1_0000_0000
    }
}

/// Two's-complement 32-bit representation of a displacement
/// `-2^31 <= d < 2^31`.
pub open spec fn bits32(d: int) -> int {
    if d >= 0 {
        d
    } else {
        d + 0x1_0000_0000
    }
}

/// Displacement a relative jump written at `site` must carry to land on
/// `dest`: measured from the address just past the 5-byte instruction.
pub open spec fn rel32_displacement(site: int, dest: int) -> int {
    dest - (site + PATCH_LEN)
}

/// Whether `dest` is reachable from a jump at `site`: the displacement must
/// fit a signed 32-bit value.  Pairs farther apart cannot be hooked with this
/// scheme; that is a hard limit of the encoding.
pub open spec fn displacement_fits(site: int, dest: int) -> bool {
    -0x8000_0000 <= rel32_displacement(site, dest) <= 0x7fff_ffff
}

/// The exact five bytes of a jump patch at `site` landing on `dest`: the
/// opcode, then the little-endian two's-complement displacement.
pub open spec fn patch_bytes(site: int, dest: int) -> Seq<u8> {
    seq![JMP_REL_32].add(le32(bits32(rel32_displacement(site, dest))))
}

/// Where a 5-byte relative-jump patch standing at `site` transfers control.
pub open spec fn jump_dest(patch: Seq<u8>, site: int) -> int {
    site + PATCH_LEN + signed32(u32_of_le(patch.subrange(1, 5)))
}

/// The little-endian bytes of a 32-bit value read back as that value.
pub proof fn lemma_le32_roundtrip(u: u32)
    ensures
        u32_of_le(le32(u as int)) == u as int,
{
    assert(u % 0x100 + 0x100 * ((u / 0x100) % 0x100) + 0x10000 * ((u / 0x10000) % 0x100)
        + 0x1000000 * ((u / 0x1000000) % 0x100) == u) by (bit_vector);
}

/// Law: a patch built for `(site, dest)` decodes to a jump that, measured
/// from `site + PATCH_LEN`, lands exactly on `dest`.
pub proof fn lemma_patch_decodes(site: int, dest: int)
    requires
        displacement_fits(site, dest),
    ensures
        jump_dest(patch_bytes(site, dest), site) == dest,
{
    let d = rel32_displacement(site, dest);
    let v = bits32(d);
    let u = v as u32;
    assert(u as int == v);
    lemma_le32_roundtrip(u);
    assert(patch_bytes(site, dest).subrange(1, 5) =~= le32(v));
    assert(signed32(v) == d);
}

/// Two's-complement 32-bit encoding of the displacement from a jump at
/// `site` to `dest`.
pub fn displacement_bits(site: usize, dest: usize) -> (r: u32)
    requires
        site + PATCH_LEN <= usize::MAX,
        displacement_fits(site as int, dest as int),
    ensures
        r as int == bits32(rel32_displacement(site as int, dest as int)),
        signed32(r as int) == rel32_displacement(site as int, dest as int),
{
    let past: usize = site + PATCH_LEN;
    if dest >= past {
        (dest - past) as u32
    } else {
        let magnitude: usize = past - dest;
        (0x1_0000_0000u64 - magnitude as u64) as u32
    }
}

/// The four little-endian bytes of `v`.
pub fn le_bytes(v: u32) -> (r: Vec<u8>)
    ensures
        r@ == le32(v as int),
        r@.len() == 4,
{
    let b0: u8 = (v % 0x100) as u8;
    let b1: u8 = ((v / 0x100) % 0x100) as u8;
    let b2: u8 = ((v / 0x10000) % 0x100) as u8;
    let b3: u8 = ((v / 0x1000000) % 0x100) as u8;
    let mut r: Vec<u8> = Vec::new();
    r.push(b0);
    r.push(b1);
    r.push(b2);
    r.push(b3);
    proof {
        assert(r@ =~= le32(v as int));
    }
    r
}

/// The 32-bit value of four little-endian bytes.
pub fn u32_from_le(b0: u8, b1: u8, b2: u8, b3: u8) -> (r: u32)
    ensures
        r as int == u32_of_le(seq![b0, b1, b2, b3]),
{
    b0 as u32 + 0x100 * (b1 as u32) + 0x10000 * (b2 as u32) + 0x1000000 * (b3 as u32)
}

/// The five bytes of the patch for a jump at `site` landing on `dest`.
pub fn jump_patch(site: usize, dest: usize) -> (r: Vec<u8>)
    requires
        site + PATCH_LEN <= usize::MAX,
        displacement_fits(site as int, dest as int),
    ensures
        r@ == patch_bytes(site as int, dest as int),
        r@.len() == PATCH_LEN,
        jump_dest(r@, site as int) == dest,
{
    let bits = displacement_bits(site, dest);
    let le = le_bytes(bits);
    let mut r: Vec<u8> = Vec::new();
    r.push(JMP_REL_32);
    r.push(le[0]);
    r.push(le[1]);
    r.push(le[2]);
    r.push(le[3]);
    proof {
        assert(r@ =~= patch_bytes(site as int, dest as int));
        lemma_patch_decodes(site as int, dest as int);
    }
    r
}

/// Reads back the destination a 5-byte jump patch at `site` lands on.
pub fn decoded_jump_dest(patch: &Vec<u8>, site: usize) -> (r: usize)
    requires
        patch@.len() == PATCH_LEN,
        site + PATCH_LEN <= usize::MAX,
        0 <= jump_dest(patch@, site as int) <= usize::MAX,
    ensures
        r as int == jump_dest(patch@, site as int),
{
    let bits = u32_from_le(patch[1], patch[2], patch[3], patch[4]);
    let past: usize = site + PATCH_LEN;
    proof {
        assert(patch@.subrange(1, 5) =~= seq![patch@[1], patch@[2], patch@[3], patch@[4]]);
    }
    if bits < 0x8000_0000 {
        past + (bits as usize)
    } else {
        let magnitude: u64 = 0x1_0000_0000u64 - bits as u64;
        past - (magnitude as usize)
    }
}

/// A window of one process's memory: `bytes[i]` is the byte at address
/// `base + i`.  Synthetic buffers in tests and the shell's real code pages
/// are both described this way.
#[derive(Debug)]
pub struct MemoryImage {
    pub base: usize,
    pub bytes: Vec<u8>,
}

/// `s` with `data` overlaid starting at offset `off`.
pub open spec fn overlay(s: Seq<u8>, off: int, data: Seq<u8>) -> Seq<u8> {
    Seq::new(s.len(), |j: int| if off <= j < off + data.len() { data[j - off] } else { s[j] })
}

impl MemoryImage {
    /// Every address of the window fits the address space.
    pub open spec fn wf(self) -> bool {
        self.base + self.bytes@.len() <= usize::MAX
    }

    /// The window holds all `len` bytes starting at address `addr`.
    pub open spec fn holds_range(self, addr: int, len: int) -> bool {
        self.base <= addr && addr + len <= self.base + self.bytes@.len()
    }

    /// The `len` bytes at address `addr`.
    pub open spec fn range_at(self, addr: int, len: int) -> Seq<u8> {
        self.bytes@.subrange(addr - self.base, addr - self.base + len)
    }
}

/// Copies `len` bytes out of the image, starting at address `addr`.
pub fn read_at(img: &MemoryImage, addr: usize, len: usize) -> (r: Vec<u8>)
    requires
        img.wf(),
        img.holds_range(addr as int, len as int),
    ensures
        r@ == img.range_at(addr as int, len as int),
{
    let mut r: Vec<u8> = Vec::new();
    let mut k: usize = 0;
    while k < len
        invariant
            k <= len,
            r@.len() == k,
            img.wf(),
            img.holds_range(addr as int, len as int),
            forall|j: int| 0 <= j < k ==> r@[j] == img.bytes@[addr - img.base + j],
        decreases len - k,
    {
        let idx: usize = addr - img.base + k;
        r.push(img.bytes[idx]);
        k += 1;
    }
    proof {
        assert(r@ =~= img.range_at(addr as int, len as int));
    }
    r
}

/// Writes `data` into the image at address `addr`, as one contiguous copy:
/// no reader of the final image can see a mix of old and new bytes.
pub fn write_at(img: &mut MemoryImage, addr: usize, data: &Vec<u8>)
    requires
        old(img).wf(),
        old(img).holds_range(addr as int, data@.len() as int),
    ensures
        final(img).base == old(img).base,
        final(img).bytes@ == overlay(old(img).bytes@, addr - old(img).base, data@),
{
    let ghost orig = img.bytes@;
    let off: usize = addr - img.base;
    let mut out: Vec<u8> = Vec::new();
    let mut j: usize = 0;
    while j < img.bytes.len()
        invariant
            j <= img.bytes@.len(),
            img.base == old(img).base,
            img.bytes@ == orig,
            img.wf(),
            img.holds_range(addr as int, data@.len() as int),
            off == addr - img.base,
            out@.len() == j,
            forall|i: int| 0 <= i < j ==> out@[i] == overlay(orig, off as int, data@)[i],
        decreases img.bytes@.len() - j,
    {
        if j >= off && j - off < data.len() {
            out.push(data[j - off]);
        } else {
            out.push(img.bytes[j]);
        }
        j += 1;
    }
    img.bytes = out;
    proof {
        assert(img.bytes@ =~= overlay(orig, addr - img.base, data@));
    }
}

/// Law: overlaying a region and then overlaying back the bytes it held
/// restores the original contents byte for byte.
pub proof fn lemma_patch_round_trip(mem: Seq<u8>, off: int, data: Seq<u8>)
    requires
        0 <= off,
        off + data.len() <= mem.len(),
    ensures
        overlay(overlay(mem, off, data), off, mem.subrange(off, off + data.len())) == mem,
{
    assert(overlay(overlay(mem, off, data), off, mem.subrange(off, off + data.len())) =~= mem);
}

/// Captures the five bytes at `target` — the only chance to do so — and then
/// overwrites them with a relative jump to `interceptor`, written as one
/// 5-byte block.
pub fn install_hook(img: &mut MemoryImage, target: usize, interceptor: usize) -> (stolen: Vec<u8>)
    requires
        old(img).wf(),
        old(img).holds_range(target as int, PATCH_LEN as int),
        target + PATCH_LEN <= usize::MAX,
        displacement_fits(target as int, interceptor as int),
    ensures
        stolen@ == old(img).range_at(target as int, PATCH_LEN as int),
        stolen@.len() == PATCH_LEN,
        final(img).base == old(img).base,
        final(img).bytes@ == overlay(
            old(img).bytes@,
            target - old(img).base,
            patch_bytes(target as int, interceptor as int),
        ),
        final(img).range_at(target as int, PATCH_LEN as int)
            == patch_bytes(target as int, interceptor as int),
        jump_dest(final(img).range_at(target as int, PATCH_LEN as int), target as int)
            == interceptor,
{
    let stolen = read_at(img, target, PATCH_LEN);
    let patch = jump_patch(target, interceptor);
    write_at(img, target, &patch);
    proof {
        assert(img.range_at(target as int, PATCH_LEN as int)
            =~= patch_bytes(target as int, interceptor as int));
        lemma_patch_decodes(target as int, interceptor as int);
    }
    stolen
}

/// Writes previously captured prologue bytes back over the patch site,
/// removing the jump.
pub fn restore_prologue(img: &mut MemoryImage, target: usize, stolen: &Vec<u8>)
    requires
        old(img).wf(),
        stolen@.len() == PATCH_LEN,
        old(img).holds_range(target as int, PATCH_LEN as int),
    ensures
        final(img).base == old(img).base,
        final(img).bytes@ == overlay(old(img).bytes@, target - old(img).base, stolen@),
{
    write_at(img, target, stolen);
}

/// Law: writing a jump patch over five bytes and then writing the captured
/// five bytes back leaves the memory exactly as it started.
pub proof fn lemma_install_restore_identity(mem: Seq<u8>, off: int, site: int, dest: int)
    requires
        0 <= off,
        off + PATCH_LEN <= mem.len(),
    ensures
        overlay(
            overlay(mem, off, patch_bytes(site, dest)),
            off,
            mem.subrange(off, off + PATCH_LEN),
        ) == mem,
{
    assert(patch_bytes(site, dest).len() == PATCH_LEN);
    lemma_patch_round_trip(mem, off, patch_bytes(site, dest));
    assert(mem.subrange(off, off + patch_bytes(site, dest).len()) =~= mem.subrange(
        off,
        off + PATCH_LEN,
    ));
}

/// One hook installation site: the target address and, once installed, the
/// five bytes the patch overwrote.  The only forward transition is
/// unpatched to patched; a site is never patched twice, since a second
/// install would capture the jump itself instead of the prologue.
#[derive(Debug)]
pub struct PatchSite {
    pub target_address: usize,
    pub stolen_bytes: Vec<u8>,
    pub installed: bool,
}

impl PatchSite {
    /// The stolen bytes are meaningful only once `installed`, and then hold
    /// exactly one patch's worth of prologue.
    pub open spec fn wf(self) -> bool {
        self.installed ==> self.stolen_bytes@.len() == PATCH_LEN
    }

    /// A fresh, unpatched site for `target_address`.
    pub fn new(target_address: usize) -> (r: Self)
        ensures
            r.target_address == target_address,
            !r.installed,
            r.wf(),
    {
        PatchSite { target_address, stolen_bytes: Vec::new(), installed: false }
    }

    /// Installs the hook once: captures the prologue, then overwrites it
    /// with the jump to `interceptor`.
    pub fn install(&mut self, img: &mut MemoryImage, interceptor: usize)
        requires
            !old(self).installed,
            old(img).wf(),
            old(img).holds_range(old(self).target_address as int, PATCH_LEN as int),
            old(self).target_address + PATCH_LEN <= usize::MAX,
            displacement_fits(old(self).target_address as int, interceptor as int),
        ensures
            final(self).target_address == old(self).target_address,
            final(self).installed,
            final(self).stolen_bytes@ == old(img).range_at(
                old(self).target_address as int,
                PATCH_LEN as int,
            ),
            final(self).wf(),
            final(img).base == old(img).base,
            final(img).bytes@ == overlay(
                old(img).bytes@,
                old(self).target_address - old(img).base,
                patch_bytes(old(self).target_address as int, interceptor as int),
            ),
            jump_dest(
                final(img).range_at(old(self).target_address as int, PATCH_LEN as int),
                old(self).target_address as int,
            ) == interceptor,
    {
        let stolen = install_hook(img, self.target_address, interceptor);
        self.stolen_bytes = stolen;
        self.installed = true;
    }

    /// Restores the captured prologue over the patch, removing the jump:
    /// the site returns to unpatched and the image holds its original five
    /// bytes again.
    pub fn restore(&mut self, img: &mut MemoryImage)
        requires
            old(self).installed,
            old(self).wf(),
            old(img).wf(),
            old(img).holds_range(old(self).target_address as int, PATCH_LEN as int),
        ensures
            final(self).target_address == old(self).target_address,
            !final(self).installed,
            final(self).wf(),
            final(img).base == old(img).base,
            final(img).bytes@ == overlay(
                old(img).bytes@,
                old(self).target_address - old(img).base,
                old(self).stolen_bytes@,
            ),
    {
        restore_prologue(img, self.target_address, &self.stolen_bytes);
        self.installed = false;
    }
}

/// The ten meaningful trampoline bytes for a block at `block`: the stolen
/// prologue, then a jump back to `target + PATCH_LEN`.
pub open spec fn trampoline_bytes(stolen: Seq<u8>, target: int, block: int) -> Seq<u8> {
    stolen.add(patch_bytes(block + PATCH_LEN, target + PATCH_LEN))
}

/// Law: the trampoline's back jump, standing at `block + PATCH_LEN`, lands
/// exactly on `target + PATCH_LEN`, the first byte after the stolen
/// prologue — so the trampoline replays the stolen bytes and resumes where
/// the original five bytes ended.
pub proof fn lemma_trampoline_returns(stolen: Seq<u8>, target: int, block: int)
    requires
        stolen.len() == PATCH_LEN,
        displacement_fits(block + PATCH_LEN, target + PATCH_LEN),
    ensures
        trampoline_bytes(stolen, target, block).subrange(0, PATCH_LEN as int) == stolen,
        jump_dest(
            trampoline_bytes(stolen, target, block).subrange(PATCH_LEN as int, TRAMPOLINE_LEN as int),
            block + PATCH_LEN,
        ) == target + PATCH_LEN,
{
    let t = trampoline_bytes(stolen, target, block);
    assert(t.subrange(0, PATCH_LEN as int) =~= stolen);
    assert(t.subrange(PATCH_LEN as int, TRAMPOLINE_LEN as int)
        =~= patch_bytes(block + PATCH_LEN, target + PATCH_LEN));
    lemma_patch_decodes(block + PATCH_LEN, target + PATCH_LEN);
}

/// Builds the trampoline's bytes from the stolen prologue: the shell copies
/// them into the freshly allocated executable block at `block`.
pub fn build_trampoline(stolen: &Vec<u8>, target: usize, block: usize) -> (r: Vec<u8>)
    requires
        stolen@.len() == PATCH_LEN,
        target + PATCH_LEN <= usize::MAX,
        block + TRAMPOLINE_LEN <= usize::MAX,
        displacement_fits(block as int + PATCH_LEN, target as int + PATCH_LEN),
    ensures
        r@ == trampoline_bytes(stolen@, target as int, block as int),
        r@.len() == TRAMPOLINE_LEN,
{
    let back = jump_patch(block + PATCH_LEN, target + PATCH_LEN);
    let mut r: Vec<u8> = Vec::new();
    r.push(stolen[0]);
    r.push(stolen[1]);
    r.push(stolen[2]);
    r.push(stolen[3]);
    r.push(stolen[4]);
    r.push(back[0]);
    r.push(back[1]);
    r.push(back[2]);
    r.push(back[3]);
    r.push(back[4]);
    proof {
        assert(r@ =~= trampoline_bytes(stolen@, target as int, block as int));
    }
    r
}

/// Installs the hook at `target` and returns the trampoline bytes for the
/// executable block at `block`; together the analogue of patching a live
/// function.  After it, a jump at `target` lands on `interceptor`, and the
/// trampoline replays the original prologue before jumping to
/// `target + PATCH_LEN`.
pub fn setup_trampoline(
    img: &mut MemoryImage,
    target: usize,
    interceptor: usize,
    block: usize,
) -> (r: Vec<u8>)
    requires
        old(img).wf(),
        old(img).holds_range(target as int, PATCH_LEN as int),
        target + PATCH_LEN <= usize::MAX,
        block + TRAMPOLINE_LEN <= usize::MAX,
        displacement_fits(target as int, interceptor as int),
        displacement_fits(block as int + PATCH_LEN, target as int + PATCH_LEN),
    ensures
        final(img).base == old(img).base,
        final(img).bytes@ == overlay(
            old(img).bytes@,
            target - old(img).base,
            patch_bytes(target as int, interceptor as int),
        ),
        jump_dest(final(img).range_at(target as int, PATCH_LEN as int), target as int)
            == interceptor,
        r@ == trampoline_bytes(
            old(img).range_at(target as int, PATCH_LEN as int),
            target as int,
            block as int,
        ),
{
    let stolen = install_hook(img, target, interceptor);
    build_trampoline(&stolen, target, block)
}

/// Absolute address of the function to intercept in an image based at `base`.
pub fn health_fn_address(base: usize) -> (r: usize)
    requires
        base + HEALTH_FN_OFFSET <= usize::MAX,
    ensures
        r == base + HEALTH_FN_OFFSET,
{
    base + HEALTH_FN_OFFSET
}

/// Absolute address of the slot holding the target object's address.
pub fn target_object_address(base: usize) -> (r: usize)
    requires
        base + THIS_OFFSET <= usize::MAX,
    ensures
        r == base + THIS_OFFSET,
{
    base + THIS_OFFSET
}

} // verus!

