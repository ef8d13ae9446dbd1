//! Building the initial memory image from an ELF object file: code and
//! initialised data are copied to their file offsets, everything else is zero.

use vstd::prelude::*;

verus! {

/// One section header: its name, and where its bytes lie in the file.
#[derive(Debug)]
pub struct Section {
    pub name: String,
    pub offset: u64,
    pub size: u64,
}

/// Why no memory image could be built.
#[derive(Debug, Clone, Copy, PartialEq, Eq, Structural)]
pub enum LoadError {
    /// The bytes are not an ELF file that can be parsed.
    NotElf,
    /// A section to be loaded reaches past the memory or past the file.
    SectionOutOfRange,
}

/// The section headers of the ELF file `bytes`, in table order, each as its
/// name, file offset and size; `None` if the bytes do not parse as ELF.
pub uninterp spec fn elf_section_table(bytes: Seq<u8>) -> Option<Seq<(Seq<char>, u64, u64)>>;

/// Relies on `goblin::elf::Elf::parse` and `Strtab::get_at` of the parsed
/// section-name table: the section headers in table order, a name that the
/// table does not hold read as empty.
#[verifier::external_body]
fn parse_sections(bytes: &Vec<u8>) -> (r: Option<Vec<Section>>)
    ensures
        match r {
            Some(v) => elf_section_table(bytes@) == Some(sections_view(v@)),
            None => elf_section_table(bytes@) is None,
        },
{
    match goblin::elf::Elf::parse(bytes.as_slice()) {
        Ok(elf) => Some(
            elf.section_headers.iter().map(
                |sh| Section {
                    name: elf.shdr_strtab.get_at(sh.sh_name).unwrap_or("").to_string(),
                    offset: sh.sh_offset,
                    size: sh.sh_size,
                },
            ).collect(),
        ),
        Err(_) => None,
    }
}

/// The plain values of a list of section headers.
pub open spec fn sections_view(v: Seq<Section>) -> Seq<(Seq<char>, u64, u64)> {
    v.map_values(|s: Section| (s.name@, s.offset, s.size))
}

/// Whether the section named `name` holds code that the program starts in.
pub open spec fn is_entry_name(name: Seq<char>) -> bool {
    name == ".text.init"@ || name == ".text"@
}

/// Whether the section named `name` is copied into memory: code or
/// initialised data.
pub open spec fn is_loaded_name(name: Seq<char>) -> bool {
    name == ".data"@ || is_entry_name(name)
}

/// Every non-empty section that is copied lies within the first `n` bytes of
/// memory and within the file `b`.
pub open spec fn sections_fit(b: Seq<u8>, secs: Seq<(Seq<char>, u64, u64)>, n: int) -> bool {
    forall|i: int|
        0 <= i < secs.len() && is_loaded_name(#[trigger] secs[i].0) && secs[i].2 > 0 ==> secs[i].1
            + secs[i].2 <= n
            && secs[i].1 + secs[i].2 <= b.len()
}

/// Whether byte `a` lies in a section that is copied.
pub open spec fn covered(secs: Seq<(Seq<char>, u64, u64)>, a: int) -> bool {
    exists|i: int|
        0 <= i < secs.len() && is_loaded_name(#[trigger] secs[i].0) && secs[i].1 <= a < secs[i].1
            + secs[i].2
}

/// The memory image of `n` bytes: file bytes where a copied section lies,
/// zero elsewhere.
pub open spec fn image_of(b: Seq<u8>, secs: Seq<(Seq<char>, u64, u64)>, n: int) -> Seq<u8> {
    Seq::new(n as nat, |a: int| if covered(secs, a) { b[a] } else { 0u8 })
}

/// Where the program starts: the file offset of the last code section, or 0.
pub open spec fn entry_of(secs: Seq<(Seq<char>, u64, u64)>) -> u32
    decreases secs.len(),
{
    if secs.len() == 0 {
        0
    } else if is_entry_name(secs.last().0) {
        secs.last().1 as u32
    } else {
        entry_of(secs.drop_last())
    }
}

fn is_entry_section(name: &String) -> (r: bool)
    ensures
        r == is_entry_name(name@),
{
    *name == ".text.init".to_owned() || *name == ".text".to_owned()
}

fn is_loaded_section(name: &String) -> (r: bool)
    ensures
        r == is_loaded_name(name@),
{
    *name == ".data".to_owned() || is_entry_section(name)
}

/// Builds a memory image of `mem_size` bytes from the file `bytes` and its
/// section headers: every code or data section is copied to its file offset,
/// and the start address is the offset of the last code section.
pub fn place_sections(bytes: &Vec<u8>, sections: &Vec<Section>, mem_size: usize) -> (r: Result<
    (u32, Vec<u8>),
    LoadError,
>)
    ensures
        match r {
            Ok((entry, mem)) => sections_fit(bytes@, sections_view(sections@), mem_size as int)
                && entry == entry_of(sections_view(sections@)) && mem@ == image_of(
                bytes@,
                sections_view(sections@),
                mem_size as int,
            ),
            Err(e) => e == LoadError::SectionOutOfRange && !sections_fit(
                bytes@,
                sections_view(sections@),
                mem_size as int,
            ),
        },
{
    let ghost secs = sections_view(sections@);
    let limit: u64 = if mem_size < bytes.len() {
        mem_size as u64
    } else {
        bytes.len() as u64
    };
    let mut mem: Vec<u8> = vec![0u8; mem_size];
    let mut start: u32 = 0;
    let mut i: usize = 0;
    while i < sections.len()
        invariant
            secs == sections_view(sections@),
            limit == if mem_size < bytes@.len() { mem_size as int } else { bytes@.len() as int },
            0 <= i <= sections@.len(),
            mem@.len() == mem_size,
            start == entry_of(secs.take(i as int)),
            sections_fit(bytes@, secs.take(i as int), mem_size as int),
            forall|a: int|
                0 <= a < mem_size ==> #[trigger] mem@[a] == if covered(secs.take(i as int), a) {
                    bytes@[a]
                } else {
                    0u8
                },
        decreases sections@.len() - i,
    {
        let sec = &sections[i];
        let ghost prev = secs.take(i as int);
        let ghost next = secs.take(i + 1);
        assert(next.drop_last() == prev);
        assert(next.last() == secs[i as int]);
        assert(secs[i as int] == (sec.name@, sec.offset, sec.size));
        assert(forall|k: int| 0 <= k < prev.len() ==> next[k] == #[trigger] prev[k]);
        if is_entry_section(&sec.name) {
            start = sec.offset as u32;
        }
        if is_loaded_section(&sec.name) && sec.size > 0 {
            if sec.offset > limit || sec.size > limit - sec.offset {
                assert(!sections_fit(bytes@, secs, mem_size as int)) by {
                    assert(is_loaded_name(secs[i as int].0));
                }
                return Err(LoadError::SectionOutOfRange);
            }
            let off = sec.offset as usize;
            let size = sec.size as usize;
            let mut j: usize = 0;
            while j < size
                invariant
                    off + size <= mem_size,
                    off + size <= bytes@.len(),
                    0 <= j <= size,
                    mem@.len() == mem_size,
                    forall|a: int|
                        0 <= a < mem_size ==> #[trigger] mem@[a] == if covered(prev, a) || off <= a
                            < off + j {
                            bytes@[a]
                        } else {
                            0u8
                        },
                decreases size - j,
            {
                mem[off + j] = bytes[off + j];
                j = j + 1;
            }
            assert forall|a: int| 0 <= a < mem_size implies covered(next, a) == (covered(prev, a)
                || off <= a < off + size) by {
                if covered(prev, a) {
                    let k = choose|k: int|
                        0 <= k < prev.len() && is_loaded_name(#[trigger] prev[k].0) && prev[k].1
                            <= a < prev[k].1 + prev[k].2;
                    assert(next[k] == prev[k]);
                }
                if off <= a < off + size {
                    assert(next[i as int] == secs[i as int]);
                    assert(is_loaded_name(next[i as int].0) && next[i as int].1 <= a < next[i as int].1
                        + next[i as int].2);
                }
                if covered(next, a) {
                    let k = choose|k: int|
                        0 <= k < next.len() && is_loaded_name(#[trigger] next[k].0) && next[k].1
                            <= a < next[k].1 + next[k].2;
                    if k < i {
                        assert(prev[k] == next[k]);
                    }
                }
            }
        } else {
            assert(next[i as int] == secs[i as int]);
            assert forall|a: int| 0 <= a < mem_size implies covered(next, a) == covered(prev, a) by {
                if covered(prev, a) {
                    let k = choose|k: int|
                        0 <= k < prev.len() && is_loaded_name(#[trigger] prev[k].0) && prev[k].1
                            <= a < prev[k].1 + prev[k].2;
                    assert(next[k] == prev[k]);
                }
                if covered(next, a) {
                    let k = choose|k: int|
                        0 <= k < next.len() && is_loaded_name(#[trigger] next[k].0) && next[k].1
                            <= a < next[k].1 + next[k].2;
                    if k < i {
                        assert(prev[k] == next[k]);
                    }
                }
            }
        }
        i = i + 1;
    }
    assert(secs.take(sections@.len() as int) == secs);
    assert(mem@ =~= image_of(bytes@, secs, mem_size as int));
    Ok((start, mem))
}

/// Builds the start address and a memory image of `mem_size` bytes from the
/// ELF file `bytes`, as `place_sections` does with its section headers.
pub fn load_elf(bytes: &Vec<u8>, mem_size: usize) -> (r: Result<(u32, Vec<u8>), LoadError>)
    ensures
        match elf_section_table(bytes@) {
            None => r == Err::<(u32, Vec<u8>), _>(LoadError::NotElf),
            Some(secs) => match r {
                Ok((entry, mem)) => sections_fit(bytes@, secs, mem_size as int) && entry
                    == entry_of(secs) && mem@ == image_of(bytes@, secs, mem_size as int),
                Err(e) => e == LoadError::SectionOutOfRange && !sections_fit(
                    bytes@,
                    secs,
                    mem_size as int,
                ),
            },
        },
{
    match parse_sections(bytes) {
        Some(sections) => place_sections(bytes, &sections, mem_size),
        None => Err(LoadError::NotElf),
    }
}

} // verus!
