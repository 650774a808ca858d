//! The offset table keyed by build, and the guarded in-place patch.
use crate::memory::{splice, MemoryImage, PAGE_EXECUTE_READWRITE};
use vstd::prelude::*;

verus! {

/// Identifies one build of the target executable.
#[derive(Clone, Copy, Debug, PartialEq, Eq, Structural)]
pub struct Fingerprint {
    pub major: u32,
    pub minor: u32,
    pub patch: u32,
}

/// Where the logical patches of one build sit, relative to the image base.
#[derive(Clone, Copy, Debug, PartialEq, Eq, Structural)]
pub struct VersionOffsets {
    pub fingerprint: Fingerprint,
    /// The conditional jump that leads into the intro screens.
    pub func_remove_intro_screens: usize,
}

/// What one application of the patch did.
#[derive(Clone, Copy, Debug, PartialEq, Eq, Structural)]
pub enum PatchOutcome {
    Patched,
    Skipped,
}

/// The bytes the intro-skip site holds in an unpatched image.
pub open spec fn intro_expected() -> Seq<u8> {
    seq![0x74u8, 0x53u8]
}

/// The bytes written over the intro-skip site.
pub open spec fn intro_replacement() -> Seq<u8> {
    seq![0x90u8, 0x90u8]
}

/// The intro-skip offset of the first entry, from index `i` on, whose build is `fp`.
pub open spec fn offset_from(entries: Seq<VersionOffsets>, fp: Fingerprint, i: int) -> Option<
    usize,
>
    decreases entries.len() - i,
{
    if i < 0 || i >= entries.len() {
        None
    } else if entries[i].fingerprint == fp {
        Some(entries[i].func_remove_intro_screens)
    } else {
        offset_from(entries, fp, i + 1)
    }
}

/// The intro-skip offset that `entries` gives for the build `fp`, if any.
pub open spec fn offset_in(entries: Seq<VersionOffsets>, fp: Fingerprint) -> Option<usize> {
    offset_from(entries, fp, 0)
}

/// Whether `bytes` hold the expected sequence at `offset`.
pub open spec fn site_matches(bytes: Seq<u8>, offset: int, expected: Seq<u8>) -> bool {
    offset + expected.len() <= bytes.len() && bytes.subrange(offset, offset + expected.len())
        == expected
}

/// What applying the intro-skip patch for build `fp` does to an image holding
/// `bytes`: the outcome, and the bytes afterwards.
pub open spec fn patch_effect(bytes: Seq<u8>, entries: Seq<VersionOffsets>, fp: Fingerprint) -> (
    PatchOutcome,
    Seq<u8>,
) {
    match offset_in(entries, fp) {
        Some(off) => if site_matches(bytes, off as int, intro_expected()) {
            (PatchOutcome::Patched, splice(bytes, off as int, intro_replacement()))
        } else {
            (PatchOutcome::Skipped, bytes)
        },
        None => (PatchOutcome::Skipped, bytes),
    }
}

/// The offsets of every known build. Lookup takes the first entry of a build.
pub struct OffsetTable {
    entries: Vec<VersionOffsets>,
}

impl View for OffsetTable {
    type V = Seq<VersionOffsets>;

    closed spec fn view(&self) -> Seq<VersionOffsets> {
        self.entries@
    }
}

impl OffsetTable {
    pub fn new(entries: Vec<VersionOffsets>) -> (r: OffsetTable)
        ensures
            r@ == entries@,
    {
        OffsetTable { entries }
    }

    pub fn entries(&self) -> (r: &Vec<VersionOffsets>)
        ensures
            r@ == self@,
    {
        &self.entries
    }

    /// The intro-skip offset of build `fp`; `None` for a build the table does not know.
    pub fn offset_of(&self, fp: &Fingerprint) -> (r: Option<usize>)
        ensures
            r == offset_in(self@, *fp),
    {
        let mut i: usize = 0;
        while i < self.entries.len()
            invariant
                i <= self.entries@.len(),
                offset_in(self@, *fp) == offset_from(self@, *fp, i as int),
            decreases self.entries@.len() - i,
        {
            if self.entries[i].fingerprint == *fp {
                return Some(self.entries[i].func_remove_intro_screens);
            }
            i += 1;
        }
        None
    }

    /// Recognises the build an image reports: `None` where the table does
    /// not know it, which callers treat as nothing to patch.
    pub fn resolve(&self, major: u32, minor: u32, patch: u32) -> (r: Option<Fingerprint>)
        ensures
            r is Some <==> offset_in(self@, Fingerprint { major, minor, patch }) is Some,
            r is Some ==> r.unwrap() == (Fingerprint { major, minor, patch }),
    {
        let fp = Fingerprint { major, minor, patch };
        match self.offset_of(&fp) {
            Some(_) => Some(fp),
            None => None,
        }
    }

    /// The intro-skip site of build `fp`, with its fixed expected and replacement bytes.
    pub fn patch_site(&self, fp: &Fingerprint) -> (r: Option<PatchSite>)
        ensures
            r is Some <==> offset_in(self@, *fp) is Some,
            r is Some ==> r.unwrap().wf() && r.unwrap().site_offset() == offset_in(
                self@,
                *fp,
            ).unwrap() && r.unwrap().expected_bytes() == intro_expected()
                && r.unwrap().replacement_bytes() == intro_replacement(),
    {
        match self.offset_of(fp) {
            Some(offset) => Some(
                PatchSite { offset, expected: vec![0x74u8, 0x53u8], replacement: vec![0x90u8, 0x90u8] },
            ),
            None => None,
        }
    }
}

/// An in-place code edit: the bytes expected at an offset, and the bytes of
/// the same length that replace them.
pub struct PatchSite {
    offset: usize,
    expected: Vec<u8>,
    replacement: Vec<u8>,
}

impl PatchSite {
    pub closed spec fn site_offset(&self) -> usize {
        self.offset
    }

    pub closed spec fn expected_bytes(&self) -> Seq<u8> {
        self.expected@
    }

    pub closed spec fn replacement_bytes(&self) -> Seq<u8> {
        self.replacement@
    }

    /// A site never changes the size of what it edits.
    pub open spec fn wf(&self) -> bool {
        self.expected_bytes().len() == self.replacement_bytes().len()
    }

    /// A site; `None` where the two sequences differ in length.
    pub fn new(offset: usize, expected: Vec<u8>, replacement: Vec<u8>) -> (r: Option<PatchSite>)
        ensures
            r is Some <==> expected@.len() == replacement@.len(),
            r is Some ==> r.unwrap().wf() && r.unwrap().site_offset() == offset
                && r.unwrap().expected_bytes() == expected@ && r.unwrap().replacement_bytes()
                == replacement@,
    {
        if expected.len() == replacement.len() {
            Some(PatchSite { offset, expected, replacement })
        } else {
            None
        }
    }

    pub fn offset(&self) -> (r: usize)
        ensures
            r == self.site_offset(),
    {
        self.offset
    }

    pub fn expected(&self) -> (r: &Vec<u8>)
        ensures
            r@ == self.expected_bytes(),
    {
        &self.expected
    }

    pub fn replacement(&self) -> (r: &Vec<u8>)
        ensures
            r@ == self.replacement_bytes(),
    {
        &self.replacement
    }

    /// Whether `current` are exactly the bytes this site expects.
    pub fn matches(&self, current: &[u8]) -> (r: bool)
        ensures
            r == (current@ == self.expected_bytes()),
    {
        if current.len() != self.expected.len() {
            return false;
        }
        let mut i: usize = 0;
        while i < current.len()
            invariant
                current@.len() == self.expected@.len(),
                i <= current@.len(),
                forall|k: int| 0 <= k < i ==> current@[k] == self.expected@[k],
            decreases current@.len() - i,
        {
            if current[i] != self.expected[i] {
                return false;
            }
            i += 1;
        }
        assert(current@ =~= self.expected@);
        true
    }

    /// Writes the replacement over the site only where the window holds the
    /// expected bytes there, with the window made writable for the write and
    /// its protection restored afterwards.
    pub fn apply(&self, mem: &mut MemoryImage) -> (r: PatchOutcome)
        requires
            self.wf(),
        ensures
            final(mem).flags() == old(mem).flags(),
            r == PatchOutcome::Patched <==> site_matches(
                old(mem).contents(),
                self.site_offset() as int,
                self.expected_bytes(),
            ),
            r == PatchOutcome::Patched ==> final(mem).contents() == splice(
                old(mem).contents(),
                self.site_offset() as int,
                self.replacement_bytes(),
            ),
            r == PatchOutcome::Skipped ==> final(mem).contents() == old(mem).contents(),
    {
        let current = match mem.read(self.offset, self.expected.len()) {
            Some(bytes) => bytes,
            None => return PatchOutcome::Skipped,
        };
        if !self.matches(current.as_slice()) {
            return PatchOutcome::Skipped;
        }
        let previous = mem.protect(PAGE_EXECUTE_READWRITE);
        mem.write(self.offset, self.replacement.as_slice());
        mem.protect(previous);
        PatchOutcome::Patched
    }
}

/// Applies the intro-skip patch for build `fp`. An unknown build, or a site
/// that does not hold the expected bytes, is skipped and nothing is written;
/// the window's protection is the same afterwards in every case.
pub fn apply_patch(mem: &mut MemoryImage, table: &OffsetTable, fp: &Fingerprint) -> (r:
    PatchOutcome)
    ensures
        (r, final(mem).contents()) == patch_effect(old(mem).contents(), table@, *fp),
        final(mem).flags() == old(mem).flags(),
        offset_in(table@, *fp) is None ==> r == PatchOutcome::Skipped && final(mem).contents()
            == old(mem).contents(),
        offset_in(table@, *fp) is Some && !site_matches(
            old(mem).contents(),
            offset_in(table@, *fp).unwrap() as int,
            intro_expected(),
        ) ==> r == PatchOutcome::Skipped && final(mem).contents() == old(mem).contents(),
{
    match table.patch_site(fp) {
        Some(site) => site.apply(mem),
        None => PatchOutcome::Skipped,
    }
}

/// Every patch site replaces exactly as many bytes as it expects.
pub proof fn lemma_site_lengths_agree(site: PatchSite)
    requires
        site.wf(),
    ensures
        site.expected_bytes().len() == site.replacement_bytes().len(),
{
}

/// Applying the patch a second time to what the first application left is
/// skipped and changes nothing, whatever the image held; where the first
/// application patched, the second is the skip that follows it.
pub proof fn lemma_patch_idempotent(bytes: Seq<u8>, entries: Seq<VersionOffsets>, fp: Fingerprint)
    ensures
        patch_effect(patch_effect(bytes, entries, fp).1, entries, fp) == (
            PatchOutcome::Skipped,
            patch_effect(bytes, entries, fp).1,
        ),
{
    let once = patch_effect(bytes, entries, fp);
    if let Some(off) = offset_in(entries, fp) {
        if site_matches(bytes, off as int, intro_expected()) {
            let after = once.1;
            let o = off as int;
            assert(after.len() == bytes.len());
            assert(after[o] == 0x90u8);
            assert(after.subrange(o, o + 2)[0] == 0x90u8);
            assert(after.subrange(o, o + 2) != intro_expected());
        }
    }
}

} // verus!
