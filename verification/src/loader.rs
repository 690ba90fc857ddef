//! Building the initial memory image: validation of the container's
//! machine type and class, classification of loadable segments into code,
//! data and other regions, and the derived zero-fill (BSS) region. Reading
//! and parsing the container itself stays with the host, which hands the
//! segments over as plain values.

use vstd::prelude::*;

verus! {

/// The machine type of a RISC-V image.
pub const EM_RISCV: u16 = 243;

/// The flag marking an executable segment.
pub const SEG_X: u32 = 1;

/// The flag marking a writable segment.
pub const SEG_W: u32 = 2;

/// The flag marking a readable segment.
pub const SEG_R: u32 = 4;

/// A failure to build the initial memory image.
#[derive(Debug, Clone, PartialEq, Eq)]
pub enum LoadError {
    /// The image's machine type is not RISC-V; carries the type found.
    NotRiscVArc(u16),
    /// The file could not be opened.
    OpenFileFailed(String),
    /// The raw bytes could not be read.
    ReadRawBinaryFailed(String),
    /// The image is not 32-bit.
    NotSupportClass,
    /// The image carries no program headers.
    ReadProgramHeadersFailed,
    /// The bytes are no image container at all.
    NotElfFile,
    /// The container is corrupt.
    ReadElfFailed(String),
}

/// One loadable segment, as plain values: its load address, its in-memory
/// size, its file bytes, and its permission flags.
pub struct Segment {
    pub addr: u32,
    pub mem_size: u32,
    pub data: Vec<u8>,
    pub flags: u32,
}

/// The initial memory image: byte runs with their load addresses, an
/// optional zero-fill region, and the entry PC.
pub struct LoadInfo {
    pub code: Vec<(Vec<u8>, u32)>,
    pub data: Vec<(Vec<u8>, u32)>,
    pub other: Vec<(Vec<u8>, u32)>,
    pub bss: Option<(u32, u32)>,
    pub pc_entry: u32,
}

/// Whether the flags mark a code segment: readable/executable and nothing
/// else.
pub open spec fn seg_is_code(flags: u32) -> bool {
    flags & !(SEG_R | SEG_X) == 0
}

/// Whether the flags mark a data segment: readable/writable and nothing
/// else.
pub open spec fn seg_is_data(flags: u32) -> bool {
    flags & !(SEG_R | SEG_W) == 0
}

/// Whether a segment lands in a given list: it carries file bytes and its
/// flags select the list (0 code, 1 data, 2 other).
pub open spec fn seg_selects(s: Segment, list: int) -> bool {
    s.data@.len() > 0 && (
        if seg_is_code(s.flags) { list == 0 }
        else if seg_is_data(s.flags) { list == 1 }
        else { list == 2 }
    )
}

/// The byte runs a list collects from the segments, in order.
pub open spec fn spec_runs(segs: Seq<Segment>, list: int) -> Seq<(Seq<u8>, u32)>
    decreases segs.len(),
{
    if segs.len() == 0 {
        Seq::empty()
    } else {
        let rest = spec_runs(segs.drop_last(), list);
        if seg_selects(segs.last(), list) {
            rest.push((segs.last().data@, segs.last().addr))
        } else {
            rest
        }
    }
}

/// The zero-fill region the last data segment with extra in-memory size
/// asks for: it starts where the file bytes end and covers the difference.
pub open spec fn spec_bss(segs: Seq<Segment>) -> Option<(u32, u32)>
    decreases segs.len(),
{
    if segs.len() == 0 {
        None
    } else {
        let s = segs.last();
        if seg_selects(s, 1) && s.mem_size > s.data@.len() {
            Some((
                crate::word::wrap32(s.addr + s.data@.len()),
                (s.mem_size - s.data@.len()) as u32,
            ))
        } else {
            spec_bss(segs.drop_last())
        }
    }
}

/// The view of a run list.
pub open spec fn runs_view(v: Seq<(Vec<u8>, u32)>) -> Seq<(Seq<u8>, u32)> {
    v.map_values(|p: (Vec<u8>, u32)| (p.0@, p.1))
}

/// Build the initial memory image from a parsed container: the machine type
/// must be RISC-V and the class 32-bit, and each segment with file bytes
/// lands in exactly one list by its permission flags, with the zero-fill
/// region derived from the last data segment that is larger in memory than
/// on file.
pub fn load(machine: u16, is_class32: bool, entry: u32, segments: Vec<Segment>)
    -> (r: Result<LoadInfo, LoadError>)
    requires
        forall|i: int| 0 <= i < segments@.len()
            ==> (#[trigger] segments@[i]).data@.len() <= 0xffff_ffff,
    ensures
        machine != EM_RISCV
            ==> r == Err::<LoadInfo, LoadError>(LoadError::NotRiscVArc(machine)),
        machine == EM_RISCV && !is_class32
            ==> r == Err::<LoadInfo, LoadError>(LoadError::NotSupportClass),
        machine == EM_RISCV && is_class32 ==> r is Ok && ({
            let info = r->Ok_0;
            &&& info.pc_entry == entry
            &&& runs_view(info.code@) == spec_runs(segments@, 0)
            &&& runs_view(info.data@) == spec_runs(segments@, 1)
            &&& runs_view(info.other@) == spec_runs(segments@, 2)
            &&& info.bss == spec_bss(segments@)
        }),
{
    if machine != EM_RISCV {
        return Err(LoadError::NotRiscVArc(machine));
    }
    if !is_class32 {
        return Err(LoadError::NotSupportClass);
    }
    let ghost all = segments@;
    let mut segments = segments;
    let mut code: Vec<(Vec<u8>, u32)> = Vec::new();
    let mut data: Vec<(Vec<u8>, u32)> = Vec::new();
    let mut other: Vec<(Vec<u8>, u32)> = Vec::new();
    let mut bss: Option<(u32, u32)> = None;
    let ghost mut done: int = 0;
    while segments.len() > 0
        invariant
            0 <= done <= all.len(),
            segments@ =~= all.skip(done),
            runs_view(code@) =~= spec_runs(all.take(done), 0),
            runs_view(data@) =~= spec_runs(all.take(done), 1),
            runs_view(other@) =~= spec_runs(all.take(done), 2),
            bss == spec_bss(all.take(done)),
        decreases segments.len(),
    {
        let seg = segments.remove(0);
        proof {
            assert(seg == all[done]);
            assert(all.take(done + 1).drop_last() =~= all.take(done));
            assert(all.take(done + 1).last() == all[done]);
        }
        let file_size = seg.data.len();
        if file_size > 0 {
            let is_code = seg.flags & !(SEG_R | SEG_X) == 0;
            let is_data = seg.flags & !(SEG_R | SEG_W) == 0;
            if is_code {
                code.push((seg.data, seg.addr));
            } else if is_data {
                let addr = seg.addr;
                let mem_size = seg.mem_size;
                if mem_size as usize > file_size {
                    let bss_start = addr.wrapping_add(file_size as u32);
                    let bss_size = mem_size - file_size as u32;
                    bss = Some((bss_start, bss_size));
                }
                data.push((seg.data, addr));
            } else {
                other.push((seg.data, seg.addr));
            }
        }
        proof {
            done = done + 1;
            assert(runs_view(code@) =~= spec_runs(all.take(done), 0));
            assert(runs_view(data@) =~= spec_runs(all.take(done), 1));
            assert(runs_view(other@) =~= spec_runs(all.take(done), 2));
        }
    }
    proof {
        assert(all.take(done) =~= all);
    }
    Ok(LoadInfo { code, data, other, bss, pc_entry: entry })
}

/// The raw flat-binary fallback: one code segment loaded at address zero,
/// entry at zero, nothing else.
pub fn load_raw(code_bytes: Vec<u8>) -> (r: LoadInfo)
    ensures
        r.pc_entry == 0,
        runs_view(r.code@) =~= seq![(code_bytes@, 0u32)],
        r.data@.len() == 0,
        r.other@.len() == 0,
        r.bss is None,
{
    let mut code: Vec<(Vec<u8>, u32)> = Vec::new();
    code.push((code_bytes, 0));
    LoadInfo {
        code,
        data: Vec::new(),
        other: Vec::new(),
        bss: None,
        pc_entry: 0,
    }
}

} // verus!
