//! Generation of a probe-rs target description (YAML) from the chip list of
//! an LPC device family.
//!
//! Every text is ASCII or UTF-8 bytes; the output is a list of lines, each
//! either printed and written to the description file, or printed only.
use vstd::prelude::*;

use crate::hex::{parse_hex, spec_parse_hex, upper_hex, upper_hex_text};

verus! {

use vstd::string::StringSliceAdditionalSpecFns;

/// A memory region of a chip, as the family description lists it.
pub struct MemoryLoc {
    pub id: Vec<u8>,
    pub derived_from: Vec<u8>,
    pub location: Vec<u8>,
    pub size: Vec<u8>,
}

/// A chip of the family.
pub struct Chip {
    pub id: Vec<u8>,
    pub family: Vec<u8>,
    pub memory: Vec<MemoryLoc>,
}

/// The family description: its chips.
pub struct Chips {
    pub chips: Vec<Chip>,
}

/// Kind of a memory region in the target description.
#[derive(Clone, Copy, Debug, PartialEq, Eq, Structural)]
pub enum MemoryType {
    Nvm,
    Ram,
}

/// A memory region of the target description.
pub struct MemoryRange {
    pub name: Vec<u8>,
    pub start: usize,
    pub end: usize,
    pub cores: Vec<Vec<u8>>,
    pub memtype: MemoryType,
}

/// A line of output: written to the description file (and printed), or
/// printed only.
pub struct OutputLine {
    pub to_file: bool,
    pub text: Vec<u8>,
}

/// Why no description could be generated.
#[derive(Clone, Copy, Debug, PartialEq, Eq, Structural)]
pub enum GenerateError {
    /// The family lists no chip.
    NoChips,
    /// A memory location or size is no hex number that fits a `usize`, or
    /// the region ends beyond `usize::MAX`.
    InvalidMemory,
}

/// The generated description: the family (which names the file) and the lines.
pub struct TargetYaml {
    pub family: Vec<u8>,
    pub lines: Vec<OutputLine>,
}

/// A line as a pair: whether it goes to the file, and its bytes.
pub type Line = (bool, Seq<u8>);

/// The bytes of a string.
pub open spec fn lit(s: &str) -> Seq<u8> {
    s.spec_bytes()
}

pub open spec fn line_view(l: OutputLine) -> Line {
    (l.to_file, l.text@)
}

pub open spec fn lines_view(ls: Seq<OutputLine>) -> Seq<Line> {
    ls.map_values(|l: OutputLine| line_view(l))
}

/// A memory region as the description states it: kind, name, start, end, cores.
pub type RangeSpec = (MemoryType, Seq<u8>, int, int, Seq<Seq<u8>>);

pub open spec fn range_view(r: MemoryRange) -> RangeSpec {
    (r.memtype, r.name@, r.start as int, r.end as int, r.cores@.map_values(|c: Vec<u8>| c@))
}

/// The kind that a region's `derived_from` selects: "Flash" is non-volatile,
/// "RAM" is RAM, anything else is not described.
pub open spec fn memory_kind(m: MemoryLoc) -> Option<MemoryType> {
    if m.derived_from@ == lit("Flash") {
        Some(MemoryType::Nvm)
    } else if m.derived_from@ == lit("RAM") {
        Some(MemoryType::Ram)
    } else {
        None
    }
}

/// Start and end of a region: location and size read as hex numbers, end =
/// start + size, which must fit a `usize`.
pub open spec fn memory_bounds(m: MemoryLoc) -> Option<(int, int)> {
    match (spec_parse_hex(m.location@), spec_parse_hex(m.size@)) {
        (Some(a), Some(b)) => if a + b <= usize::MAX {
            Some((a as int, (a + b) as int))
        } else {
            None
        },
        _ => None,
    }
}

/// Whether every region of `ms` has valid bounds.
pub open spec fn all_memory_valid(ms: Seq<MemoryLoc>) -> bool {
    forall|i: int| 0 <= i < ms.len() ==> (#[trigger] memory_bounds(ms[i])) is Some
}

/// The printed notes about regions of a kind that is not described.
pub open spec fn memory_notes(ms: Seq<MemoryLoc>) -> Seq<Line>
    decreases ms.len(),
{
    if ms.len() == 0 {
        Seq::empty()
    } else {
        let m = ms.last();
        memory_notes(ms.drop_last()) + if memory_kind(m) is None {
            seq![(false, lit("## unhandled memory type ") + m.derived_from@)]
        } else {
            Seq::empty()
        }
    }
}

/// The described regions of `ms`, in order, each with the single core "main".
pub open spec fn handled_ranges(ms: Seq<MemoryLoc>) -> Seq<RangeSpec>
    decreases ms.len(),
{
    if ms.len() == 0 {
        Seq::empty()
    } else {
        let m = ms.last();
        handled_ranges(ms.drop_last()) + match memory_kind(m) {
            Some(k) => seq![
                (k, m.id@, memory_bounds(m).unwrap().0, memory_bounds(m).unwrap().1, seq![lit("main")]),
            ],
            None => Seq::empty(),
        }
    }
}

pub open spec fn kind_name(k: MemoryType) -> Seq<u8> {
    match k {
        MemoryType::Nvm => lit("Nvm"),
        MemoryType::Ram => lit("Ram"),
    }
}

/// The lines that list the cores of a region.
pub open spec fn core_lines(cores: Seq<Seq<u8>>) -> Seq<Line>
    decreases cores.len(),
{
    if cores.len() == 0 {
        Seq::empty()
    } else {
        core_lines(cores.drop_last()) + seq![(true, lit("      - ") + cores.last())]
    }
}

/// The lines that describe one region.
pub open spec fn range_lines(r: RangeSpec) -> Seq<Line> {
    seq![
        (true, lit("  - !") + kind_name(r.0)),
        (true, lit("    name: ") + r.1),
        (true, lit("    range:")),
        (true, lit("      start: 0x") + upper_hex(r.2 as nat)),
        (true, lit("      end: 0x") + upper_hex(r.3 as nat)),
        (true, lit("    cores:")),
    ] + core_lines(r.4)
}

/// The lines that describe a list of regions.
pub open spec fn ranges_lines(rs: Seq<RangeSpec>) -> Seq<Line>
    decreases rs.len(),
{
    if rs.len() == 0 {
        Seq::empty()
    } else {
        ranges_lines(rs.drop_last()) + range_lines(rs.last())
    }
}

/// The lines that open the description of a chip.
pub open spec fn chip_header(id: Seq<u8>) -> Seq<Line> {
    seq![
        (true, lit("- name: ") + id),
        (true, lit("  cores:")),
        (true, lit("  - name: main")),
        (true, lit("    type: ") + lit("armv6m")),
        (true, lit("    core_access_options: !Arm")),
        (true, lit("      ap: !v1 0")),
        (true, lit("  memory_map:")),
    ]
}

/// The output for one chip: its header, the notes about its undescribed
/// regions, then its described regions.
pub open spec fn chip_lines(c: Chip) -> Seq<Line> {
    chip_header(c.id@) + memory_notes(c.memory@) + ranges_lines(handled_ranges(c.memory@))
}

/// The output for a list of chips.
pub open spec fn chips_lines(cs: Seq<Chip>) -> Seq<Line>
    decreases cs.len(),
{
    if cs.len() == 0 {
        Seq::empty()
    } else {
        chips_lines(cs.drop_last()) + chip_lines(cs.last())
    }
}

/// Whether every region of every chip has valid bounds.
pub open spec fn chips_valid(cs: Seq<Chip>) -> bool {
    forall|i: int| 0 <= i < cs.len() ==> all_memory_valid(#[trigger] cs[i].memory@)
}

/// The lines that open the description.
pub open spec fn target_header(family: Seq<u8>) -> Seq<Line> {
    seq![(true, lit("name: ") + family), (true, lit("variants:"))]
}

/// Append the bytes of `s` to `out`.
fn push_str(out: &mut Vec<u8>, s: &str)
    ensures
        final(out)@ == old(out)@ + lit(s),
{
    let b = s.as_bytes();
    let mut i: usize = 0;
    while i < b.len()
        invariant
            i <= b@.len(),
            b@ == lit(s),
            out@ == old(out)@ + b@.subrange(0, i as int),
        decreases b@.len() - i,
    {
        out.push(b[i]);
        i = i + 1;
        assert(out@ =~= old(out)@ + b@.subrange(0, i as int));
    }
    assert(b@.subrange(0, i as int) =~= b@);
}

/// Append the bytes of `s` to `out`.
fn push_bytes(out: &mut Vec<u8>, s: &Vec<u8>)
    ensures
        final(out)@ == old(out)@ + s@,
{
    let mut i: usize = 0;
    while i < s.len()
        invariant
            i <= s@.len(),
            out@ == old(out)@ + s@.subrange(0, i as int),
        decreases s@.len() - i,
    {
        out.push(s[i]);
        i = i + 1;
        assert(out@ =~= old(out)@ + s@.subrange(0, i as int));
    }
    assert(s@.subrange(0, i as int) =~= s@);
}

/// A copy of `s`.
fn copy_bytes(s: &Vec<u8>) -> (r: Vec<u8>)
    ensures
        r@ == s@,
{
    let mut r: Vec<u8> = Vec::new();
    push_bytes(&mut r, s);
    assert(r@ =~= s@);
    r
}

/// Emit the line `prefix`.
fn emit(out: &mut Vec<OutputLine>, to_file: bool, prefix: &str)
    ensures
        lines_view(final(out)@) == lines_view(old(out)@).push((to_file, lit(prefix))),
{
    let mut text: Vec<u8> = Vec::new();
    push_str(&mut text, prefix);
    assert(text@ =~= lit(prefix));
    out.push(OutputLine { to_file, text });
    assert(lines_view(out@) =~= lines_view(old(out)@).push((to_file, lit(prefix))));
}

/// Emit the line `prefix` followed by `tail`.
fn emit_with(out: &mut Vec<OutputLine>, to_file: bool, prefix: &str, tail: &Vec<u8>)
    ensures
        lines_view(final(out)@) == lines_view(old(out)@).push((to_file, lit(prefix) + tail@)),
{
    let mut text: Vec<u8> = Vec::new();
    push_str(&mut text, prefix);
    push_bytes(&mut text, tail);
    assert(text@ =~= lit(prefix) + tail@);
    out.push(OutputLine { to_file, text });
    assert(lines_view(out@) =~= lines_view(old(out)@).push((to_file, lit(prefix) + tail@)));
}

/// Whether `a` holds the bytes of `s`.
fn bytes_eq_str(a: &Vec<u8>, s: &str) -> (r: bool)
    ensures
        r == (a@ == lit(s)),
{
    let b = s.as_bytes();
    if a.len() != b.len() {
        return false;
    }
    let mut i: usize = 0;
    while i < a.len()
        invariant
            i <= a@.len(),
            a@.len() == b@.len(),
            b@ == lit(s),
            forall|k: int| 0 <= k < i ==> a@[k] == b@[k],
        decreases a@.len() - i,
    {
        if a[i] != b[i] {
            return false;
        }
        i = i + 1;
    }
    assert(a@ =~= b@);
    true
}

/// Emit the line `a` followed by `b`.
fn emit2(out: &mut Vec<OutputLine>, to_file: bool, a: &str, b: &str)
    ensures
        lines_view(final(out)@) == lines_view(old(out)@).push((to_file, lit(a) + lit(b))),
{
    let mut text: Vec<u8> = Vec::new();
    push_str(&mut text, a);
    push_str(&mut text, b);
    assert(text@ =~= lit(a) + lit(b));
    out.push(OutputLine { to_file, text });
    assert(lines_view(out@) =~= lines_view(old(out)@).push((to_file, lit(a) + lit(b))));
}

/// Read the regions of a chip: the described ones become ranges, and a note
/// is emitted for each of another kind.  Fails when a region has invalid
/// bounds.
fn memory_ranges(mems: &Vec<MemoryLoc>, out: &mut Vec<OutputLine>) -> (r: Option<Vec<MemoryRange>>)
    ensures
        r is Some <==> all_memory_valid(mems@),
        r is Some ==> r->0@.map_values(|x: MemoryRange| range_view(x)) == handled_ranges(mems@),
        r is Some ==> lines_view(final(out)@) == lines_view(old(out)@) + memory_notes(mems@),
{
    let mut ranges: Vec<MemoryRange> = Vec::new();
    let mut i: usize = 0;
    assert(lines_view(out@) =~= lines_view(old(out)@) + memory_notes(mems@.take(0)));
    assert(ranges@.map_values(|x: MemoryRange| range_view(x)) =~= handled_ranges(mems@.take(0)));
    while i < mems.len()
        invariant
            i <= mems@.len(),
            all_memory_valid(mems@.take(i as int)),
            ranges@.map_values(|x: MemoryRange| range_view(x)) == handled_ranges(mems@.take(i as int)),
            lines_view(out@) == lines_view(old(out)@) + memory_notes(mems@.take(i as int)),
        decreases mems@.len() - i,
    {
        let m = &mems[i];
        let ghost before = mems@.take(i as int);
        let ghost after = mems@.take(i as int + 1);
        assert(after.drop_last() =~= before);
        assert(after.last() == *m);
        let start = match parse_hex(m.location.as_slice()) {
            Some(v) => v,
            None => {
                assert(memory_bounds(mems@[i as int]) is None);
                return None;
            },
        };
        let size = match parse_hex(m.size.as_slice()) {
            Some(v) => v,
            None => {
                assert(memory_bounds(mems@[i as int]) is None);
                return None;
            },
        };
        if start > usize::MAX - size {
            assert(memory_bounds(mems@[i as int]) is None);
            return None;
        }
        let end = start + size;
        assert(spec_parse_hex(m.location@) == Some(start as nat));
        assert(spec_parse_hex(m.size@) == Some(size as nat));
        assert(memory_bounds(*m) == Some((start as int, end as int)));
        let ghost ranges_before = ranges@;
        let ghost out_before = out@;
        if bytes_eq_str(&m.derived_from, "Flash") || bytes_eq_str(&m.derived_from, "RAM") {
            let memtype = if bytes_eq_str(&m.derived_from, "Flash") {
                MemoryType::Nvm
            } else {
                MemoryType::Ram
            };
            let mut main: Vec<u8> = Vec::new();
            push_str(&mut main, "main");
            let mut cores: Vec<Vec<u8>> = Vec::new();
            cores.push(main);
            let range = MemoryRange { name: copy_bytes(&m.id), start, end, cores, memtype };
            assert(range.cores@.map_values(|c: Vec<u8>| c@) =~= seq![lit("main")]);
            assert(memory_kind(*m) == Some(memtype));
            ranges.push(range);
            assert(ranges@.map_values(|x: MemoryRange| range_view(x)) =~= ranges_before.map_values(
                |x: MemoryRange| range_view(x),
            ).push(range_view(range)));
            assert(memory_notes(after) =~= memory_notes(before));
        } else {
            assert(memory_kind(*m) is None);
            emit_with(out, false, "## unhandled memory type ", &m.derived_from);
            assert(handled_ranges(after) =~= handled_ranges(before));
        }
        i = i + 1;
        assert(all_memory_valid(mems@.take(i as int))) by {
            assert forall|k: int| 0 <= k < after.len() implies (#[trigger] memory_bounds(after[k])) is Some by {
                if k < i - 1 {
                    assert(after[k] == before[k]);
                }
            }
        }
    }
    assert(mems@.take(i as int) =~= mems@);
    Some(ranges)
}

proof fn lemma_ranges_lines_push(rs: Seq<RangeSpec>, r: RangeSpec)
    ensures
        ranges_lines(rs.push(r)) == ranges_lines(rs) + range_lines(r),
{
    assert(rs.push(r).drop_last() =~= rs);
}

/// Emit the lines of one region.
fn emit_range(out: &mut Vec<OutputLine>, r: &MemoryRange)
    ensures
        lines_view(final(out)@) == lines_view(old(out)@) + range_lines(range_view(*r)),
{
    let ghost start = lines_view(out@);
    match r.memtype {
        MemoryType::Nvm => emit2(out, true, "  - !", "Nvm"),
        MemoryType::Ram => emit2(out, true, "  - !", "Ram"),
    }
    emit_with(out, true, "    name: ", &r.name);
    emit(out, true, "    range:");
    let start_text = upper_hex_text(r.start);
    emit_with(out, true, "      start: 0x", &start_text);
    let end_text = upper_hex_text(r.end);
    emit_with(out, true, "      end: 0x", &end_text);
    emit(out, true, "    cores:");
    let ghost head = lines_view(out@);
    let ghost cores = r.cores@.map_values(|c: Vec<u8>| c@);
    assert(head =~= start + seq![
        (true, lit("  - !") + kind_name(r.memtype)),
        (true, lit("    name: ") + r.name@),
        (true, lit("    range:")),
        (true, lit("      start: 0x") + upper_hex(r.start as nat)),
        (true, lit("      end: 0x") + upper_hex(r.end as nat)),
        (true, lit("    cores:")),
    ]);
    let mut k: usize = 0;
    assert(cores.take(0) =~= Seq::<Seq<u8>>::empty());
    while k < r.cores.len()
        invariant
            k <= r.cores@.len(),
            cores == r.cores@.map_values(|c: Vec<u8>| c@),
            lines_view(out@) == head + core_lines(cores.take(k as int)),
        decreases r.cores@.len() - k,
    {
        emit_with(out, true, "      - ", &r.cores[k]);
        assert(cores.take(k as int + 1).drop_last() =~= cores.take(k as int));
        k = k + 1;
    }
    assert(cores.take(k as int) =~= cores);
}

/// Byte-wise lexicographic order of chip names, the order of `String::cmp`:
/// whether `a` comes strictly before `b`.
pub open spec fn id_lt(a: Seq<u8>, b: Seq<u8>) -> bool
    decreases a.len(),
{
    if a.len() == 0 {
        b.len() > 0
    } else if b.len() == 0 {
        false
    } else if a[0] != b[0] {
        a[0] < b[0]
    } else {
        id_lt(a.drop_first(), b.drop_first())
    }
}

/// `s` with `c` inserted after every chip whose name does not come after
/// `c`'s (the step of a stable sort).
pub open spec fn insert_by_id(s: Seq<Chip>, c: Chip) -> Seq<Chip>
    decreases s.len(),
{
    if s.len() == 0 {
        seq![c]
    } else if id_lt(c.id@, s[0].id@) {
        seq![c] + s
    } else {
        seq![s[0]] + insert_by_id(s.drop_first(), c)
    }
}

/// The chips in order of their names; chips of equal names keep their order
/// (the stable sort of `sort_by` with `String::cmp` on the names).
pub open spec fn sort_by_id(s: Seq<Chip>) -> Seq<Chip>
    decreases s.len(),
{
    if s.len() == 0 {
        s
    } else {
        insert_by_id(sort_by_id(s.drop_last()), s.last())
    }
}

/// Whether `a` comes strictly before `b` in the order of names.
fn id_less(a: &Vec<u8>, b: &Vec<u8>) -> (r: bool)
    ensures
        r == id_lt(a@, b@),
{
    let mut i: usize = 0;
    assert(a@.skip(0) =~= a@);
    assert(b@.skip(0) =~= b@);
    while i < a.len() && i < b.len() && a[i] == b[i]
        invariant
            i <= a@.len(),
            i <= b@.len(),
            id_lt(a@, b@) == id_lt(a@.skip(i as int), b@.skip(i as int)),
        decreases a@.len() - i,
    {
        let ghost x = a@.skip(i as int);
        let ghost y = b@.skip(i as int);
        assert(x.drop_first() =~= a@.skip(i + 1));
        assert(y.drop_first() =~= b@.skip(i + 1));
        i = i + 1;
    }
    assert(a@.skip(0) =~= a@);
    assert(b@.skip(0) =~= b@);
    if i == a.len() {
        i < b.len()
    } else if i == b.len() {
        false
    } else {
        a[i] < b[i]
    }
}

proof fn lemma_insert_by_id_at(s: Seq<Chip>, c: Chip, p: int)
    requires
        0 <= p <= s.len(),
        forall|j: int| 0 <= j < p ==> !id_lt(c.id@, #[trigger] s[j].id@),
        p < s.len() ==> id_lt(c.id@, s[p].id@),
    ensures
        insert_by_id(s, c) == s.insert(p, c),
    decreases s.len(),
{
    if s.len() == 0 {
        assert(s.insert(p, c) =~= seq![c]);
    } else if p == 0 {
        assert(s.insert(p, c) =~= seq![c] + s);
    } else {
        let t = s.drop_first();
        assert forall|j: int| 0 <= j < p - 1 implies !id_lt(c.id@, #[trigger] t[j].id@) by {
            assert(t[j] == s[j + 1]);
        }
        lemma_insert_by_id_at(t, c, p - 1);
        assert(s.insert(p, c) =~= seq![s[0]] + t.insert(p - 1, c));
    }
}

/// The chips in order of their names, equal names keeping their order.
fn sort_chips(chips: Vec<Chip>) -> (r: Vec<Chip>)
    ensures
        r@ == sort_by_id(chips@),
{
    let ghost input = chips@;
    let total = chips.len();
    let mut rest = chips;
    let mut sorted: Vec<Chip> = Vec::new();
    let mut k: usize = 0;
    assert(input.take(0) =~= Seq::<Chip>::empty());
    while rest.len() > 0
        invariant
            k + rest@.len() == input.len(),
            input.len() == total,
            rest@ == input.skip(k as int),
            sorted@ == sort_by_id(input.take(k as int)),
        decreases rest@.len(),
    {
        let c = rest.remove(0);
        let mut p: usize = 0;
        while p < sorted.len() && !id_less(&c.id, &sorted[p].id)
            invariant
                p <= sorted@.len(),
                forall|j: int| 0 <= j < p ==> !id_lt(c.id@, #[trigger] sorted@[j].id@),
            decreases sorted@.len() - p,
        {
            p = p + 1;
        }
        proof {
            lemma_insert_by_id_at(sorted@, c, p as int);
            assert(input.take(k + 1).drop_last() =~= input.take(k as int));
            assert(input.take(k + 1).last() == input[k as int]);
            assert(input.skip(k as int)[0] == input[k as int]);
            assert(rest@ =~= input.skip(k + 1));
        }
        sorted.insert(p, c);
        k = k + 1;
    }
    assert(input.take(k as int) =~= input);
    sorted
}

/// Emit the lines of one chip; fails when one of its regions has invalid bounds.
fn emit_chip(out: &mut Vec<OutputLine>, chip: &Chip) -> (ok: bool)
    ensures
        ok == all_memory_valid(chip.memory@),
        ok ==> lines_view(final(out)@) == lines_view(old(out)@) + chip_lines(*chip),
{
    let ghost start = lines_view(out@);
    emit_with(out, true, "- name: ", &chip.id);
    emit(out, true, "  cores:");
    emit(out, true, "  - name: main");
    emit2(out, true, "    type: ", "armv6m");
    emit(out, true, "    core_access_options: !Arm");
    emit(out, true, "      ap: !v1 0");
    emit(out, true, "  memory_map:");
    assert(lines_view(out@) =~= start + chip_header(chip.id@));
    let ghost head = lines_view(out@);
    let nvm = match memory_ranges(&chip.memory, out) {
        Some(r) => r,
        None => return false,
    };
    let ghost rs = nvm@.map_values(|x: MemoryRange| range_view(x));
    let ghost mid = lines_view(out@);
    let mut j: usize = 0;
    assert(rs.take(0) =~= Seq::<RangeSpec>::empty());
    while j < nvm.len()
        invariant
            j <= nvm@.len(),
            rs == nvm@.map_values(|x: MemoryRange| range_view(x)),
            lines_view(out@) == mid + ranges_lines(rs.take(j as int)),
        decreases nvm@.len() - j,
    {
        emit_range(out, &nvm[j]);
        proof {
            lemma_ranges_lines_push(rs.take(j as int), rs[j as int]);
            assert(rs.take(j as int).push(rs[j as int]) =~= rs.take(j + 1));
        }
        j = j + 1;
    }
    assert(rs.take(j as int) =~= rs);
    assert(lines_view(out@) =~= start + chip_lines(*chip));
    true
}

/// Generate the target description of a chip family: "name: " and the family
/// of the first chip listed, "variants:", then the chips in order of their
/// names.
pub fn generate_target_yaml(target: Chips) -> (r: Result<TargetYaml, GenerateError>)
    ensures
        target.chips@.len() == 0 ==> r == Err::<TargetYaml, GenerateError>(GenerateError::NoChips),
        target.chips@.len() > 0 ==> (chips_valid(target.chips@) <==> r is Ok),
        target.chips@.len() > 0 && !chips_valid(target.chips@) ==> r == Err::<
            TargetYaml,
            GenerateError,
        >(GenerateError::InvalidMemory),
        r matches Ok(y) ==> y.family@ == target.chips@[0].family@ && lines_view(y.lines@)
            == target_header(y.family@) + chips_lines(sort_by_id(target.chips@)),
{
    if target.chips.len() == 0 {
        return Err(GenerateError::NoChips);
    }
    let ghost input = target.chips@;
    let family = copy_bytes(&target.chips[0].family);
    let mut lines: Vec<OutputLine> = Vec::new();
    emit_with(&mut lines, true, "name: ", &family);
    emit(&mut lines, true, "variants:");
    assert(lines_view(lines@) =~= target_header(family@));
    let ghost head = lines_view(lines@);
    let sorted = sort_chips(target.chips);
    let ghost ss = sorted@;
    let mut i: usize = 0;
    assert(ss.take(0) =~= Seq::<Chip>::empty());
    while i < sorted.len()
        invariant
            i <= sorted@.len(),
            ss == sorted@,
            ss == sort_by_id(input),
            input == target.chips@,
            input.len() > 0,
            chips_valid(ss.take(i as int)),
            lines_view(lines@) == head + chips_lines(ss.take(i as int)),
        decreases sorted@.len() - i,
    {
        let ok = emit_chip(&mut lines, &sorted[i]);
        if !ok {
            assert(!all_memory_valid(ss[i as int].memory@));
            assert(!chips_valid(ss));
            proof {
                lemma_sort_keeps_validity(input);
            }
            return Err(GenerateError::InvalidMemory);
        }
        proof {
            let t = ss.take(i + 1);
            assert(t.drop_last() =~= ss.take(i as int));
            assert forall|k: int| 0 <= k < t.len() implies all_memory_valid(#[trigger] t[k].memory@) by {
                if k < i {
                    assert(t[k] == ss.take(i as int)[k]);
                }
            }
        }
        i = i + 1;
    }
    assert(ss.take(i as int) =~= ss);
    proof {
        lemma_sort_keeps_validity(input);
    }
    Ok(TargetYaml { family, lines })
}

/// Whether the chips are in order of their names.
pub open spec fn sorted_by_id(s: Seq<Chip>) -> bool {
    forall|i: int, j: int| 0 <= i < j < s.len() ==> !id_lt(#[trigger] s[j].id@, #[trigger] s[i].id@)
}

proof fn lemma_id_lt_transitive(a: Seq<u8>, b: Seq<u8>, c: Seq<u8>)
    requires
        id_lt(a, b),
        id_lt(b, c),
    ensures
        id_lt(a, c),
    decreases a.len(),
{
    if a.len() > 0 && b.len() > 0 && c.len() > 0 && a[0] == b[0] && b[0] == c[0] {
        lemma_id_lt_transitive(a.drop_first(), b.drop_first(), c.drop_first());
    }
}

proof fn lemma_id_lt_irreflexive(a: Seq<u8>)
    ensures
        !id_lt(a, a),
    decreases a.len(),
{
    if a.len() > 0 {
        lemma_id_lt_irreflexive(a.drop_first());
    }
}

proof fn lemma_insert_by_id_is_insert(s: Seq<Chip>, c: Chip) -> (p: int)
    ensures
        0 <= p <= s.len(),
        insert_by_id(s, c) == s.insert(p, c),
    decreases s.len(),
{
    if s.len() == 0 {
        assert(s.insert(0, c) =~= seq![c]);
        0
    } else if id_lt(c.id@, s[0].id@) {
        assert(s.insert(0, c) =~= seq![c] + s);
        0
    } else {
        let q = lemma_insert_by_id_is_insert(s.drop_first(), c);
        assert(s.insert(q + 1, c) =~= seq![s[0]] + s.drop_first().insert(q, c));
        q + 1
    }
}

proof fn lemma_insert_by_id_sorted(s: Seq<Chip>, c: Chip)
    requires
        sorted_by_id(s),
    ensures
        sorted_by_id(insert_by_id(s, c)),
    decreases s.len(),
{
    let r = insert_by_id(s, c);
    if s.len() == 0 {
    } else if id_lt(c.id@, s[0].id@) {
        assert forall|i: int, j: int| 0 <= i < j < r.len() implies !id_lt(
            #[trigger] r[j].id@,
            #[trigger] r[i].id@,
        ) by {
            if i == 0 {
                assert(r[0] == c);
                assert(r[j] == s[j - 1]);
                lemma_id_lt_irreflexive(s[0].id@);
                if j - 1 > 0 {
                    assert(!id_lt(s[j - 1].id@, s[0].id@));
                }
                if id_lt(s[j - 1].id@, c.id@) {
                    lemma_id_lt_transitive(s[j - 1].id@, c.id@, s[0].id@);
                }
            } else {
                assert(r[i] == s[i - 1] && r[j] == s[j - 1]);
            }
        }
    } else {
        let t = s.drop_first();
        assert(sorted_by_id(t)) by {
            assert forall|i: int, j: int| 0 <= i < j < t.len() implies !id_lt(
                #[trigger] t[j].id@,
                #[trigger] t[i].id@,
            ) by {
                assert(t[i] == s[i + 1] && t[j] == s[j + 1]);
            }
        }
        lemma_insert_by_id_sorted(t, c);
        let q = lemma_insert_by_id_is_insert(t, c);
        let u = insert_by_id(t, c);
        assert(r == seq![s[0]] + u);
        assert forall|i: int, j: int| 0 <= i < j < r.len() implies !id_lt(
            #[trigger] r[j].id@,
            #[trigger] r[i].id@,
        ) by {
            if i == 0 {
                assert(r[j] == u[j - 1]);
                assert(u == t.insert(q, c));
                if j - 1 == q {
                    assert(u[j - 1] == c);
                } else if j - 1 < q {
                    assert(u[j - 1] == s[j]);
                } else {
                    assert(u[j - 1] == s[j - 1]);
                }
            } else {
                assert(r[i] == u[i - 1] && r[j] == u[j - 1]);
            }
        }
    }
}

/// The chips come out in order of their names.
pub proof fn lemma_sort_by_id_sorted(s: Seq<Chip>)
    ensures
        sorted_by_id(sort_by_id(s)),
    decreases s.len(),
{
    if s.len() > 0 {
        lemma_sort_by_id_sorted(s.drop_last());
        lemma_insert_by_id_sorted(sort_by_id(s.drop_last()), s.last());
    }
}

/// The chips that come out are those that went in, each as often.
pub proof fn lemma_sort_by_id_permutation(s: Seq<Chip>)
    ensures
        sort_by_id(s).to_multiset() == s.to_multiset(),
        sort_by_id(s).len() == s.len(),
    decreases s.len(),
{
    broadcast use vstd::seq_lib::group_to_multiset_ensures;
    if s.len() > 0 {
        let t = s.drop_last();
        lemma_sort_by_id_permutation(t);
        let p = lemma_insert_by_id_is_insert(sort_by_id(t), s.last());
        vstd::seq_lib::to_multiset_insert(sort_by_id(t), p, s.last());
        vstd::seq_lib::to_multiset_build(t, s.last());
        assert(t.push(s.last()) =~= s);
    } else {
        assert(s.to_multiset() =~= vstd::multiset::Multiset::empty());
        assert(sort_by_id(s).to_multiset() =~= vstd::multiset::Multiset::empty());
    }
}

proof fn lemma_chips_valid_permutation(s: Seq<Chip>, t: Seq<Chip>)
    requires
        s.to_multiset() == t.to_multiset(),
        chips_valid(s),
    ensures
        chips_valid(t),
{
    assert forall|i: int| 0 <= i < t.len() implies all_memory_valid(#[trigger] t[i].memory@) by {
        let c = t[i];
        assert(t.contains(c));
        vstd::seq_lib::to_multiset_contains(t, c);
        vstd::seq_lib::to_multiset_contains(s, c);
        assert(s.contains(c));
        let j = choose|j: int| 0 <= j < s.len() && s[j] == c;
        assert(all_memory_valid(s[j].memory@));
    }
}

/// Whether every region of every chip has valid bounds does not depend on
/// the order of the chips: sorting keeps it.
pub proof fn lemma_sort_keeps_validity(s: Seq<Chip>)
    ensures
        chips_valid(sort_by_id(s)) <==> chips_valid(s),
{
    lemma_sort_by_id_permutation(s);
    if chips_valid(s) {
        lemma_chips_valid_permutation(s, sort_by_id(s));
    }
    if chips_valid(sort_by_id(s)) {
        lemma_chips_valid_permutation(sort_by_id(s), s);
    }
}

/// The chips of `s` named `id`, in their order in `s`.
pub open spec fn chips_named(s: Seq<Chip>, id: Seq<u8>) -> Seq<Chip> {
    s.filter(named(id))
}

/// Whether a chip is named `id`.
pub open spec fn named(id: Seq<u8>) -> spec_fn(Chip) -> bool {
    |c: Chip| c.id@ == id
}

proof fn lemma_no_chip_named_below(t: Seq<Chip>, x: Chip)
    requires
        sorted_by_id(t),
        t.len() > 0,
        id_lt(x.id@, t[0].id@),
    ensures
        chips_named(t, x.id@) == Seq::<Chip>::empty(),
{
    let p = named(x.id@);
    assert forall|j: int| 0 <= j < t.len() implies !p(#[trigger] t[j]) by {
        if t[j].id@ == x.id@ {
            if j == 0 {
                lemma_id_lt_irreflexive(x.id@);
            } else {
                assert(!id_lt(t[j].id@, t[0].id@));
            }
        }
    }
    assert(t.all(|c: Chip| !p(c)));
    t.lemma_all_neg_filter_empty(p);
}

proof fn lemma_insert_by_id_named(t: Seq<Chip>, x: Chip, id: Seq<u8>)
    requires
        sorted_by_id(t),
    ensures
        chips_named(insert_by_id(t, x), id) == if x.id@ == id {
            chips_named(t, id).push(x)
        } else {
            chips_named(t, id)
        },
    decreases t.len(),
{
    let p = named(id);
    reveal(Seq::filter);
    if t.len() == 0 {
        assert(insert_by_id(t, x) == seq![x]);
        assert(seq![x].drop_last() =~= Seq::<Chip>::empty());
        assert(chips_named(t, id) =~= Seq::<Chip>::empty());
    } else if id_lt(x.id@, t[0].id@) {
        t.lemma_filter_prepend(x, p);
        if x.id@ == id {
            lemma_no_chip_named_below(t, x);
            assert(seq![x] + chips_named(t, id) =~= chips_named(t, id).push(x));
        } else {
            assert(Seq::<Chip>::empty() + chips_named(t, id) =~= chips_named(t, id));
        }
    } else {
        let u = t.drop_first();
        assert(sorted_by_id(u)) by {
            assert forall|i: int, j: int| 0 <= i < j < u.len() implies !id_lt(
                #[trigger] u[j].id@,
                #[trigger] u[i].id@,
            ) by {
                assert(u[i] == t[i + 1] && u[j] == t[j + 1]);
            }
        }
        lemma_insert_by_id_named(u, x, id);
        assert(t =~= seq![t[0]] + u);
        u.lemma_filter_prepend(t[0], p);
        insert_by_id(u, x).lemma_filter_prepend(t[0], p);
        let head = if p(t[0]) {
            seq![t[0]]
        } else {
            Seq::<Chip>::empty()
        };
        if x.id@ == id {
            assert(head + chips_named(u, id).push(x) =~= (head + chips_named(u, id)).push(x));
        }
    }
}

/// Sorting keeps chips of equal names in their order: the chips named `id`
/// come out in the order in which they went in.
pub proof fn lemma_sort_by_id_stable(s: Seq<Chip>, id: Seq<u8>)
    ensures
        chips_named(sort_by_id(s), id) == chips_named(s, id),
    decreases s.len(),
{
    reveal(Seq::filter);
    if s.len() > 0 {
        lemma_sort_by_id_stable(s.drop_last(), id);
        lemma_sort_by_id_sorted(s.drop_last());
        lemma_insert_by_id_named(sort_by_id(s.drop_last()), s.last(), id);
    }
}

/// Whether a region is of a kind that the description lists: "Flash" or "RAM".
pub open spec fn is_described(m: MemoryLoc) -> bool {
    m.derived_from@ == lit("Flash") || m.derived_from@ == lit("RAM")
}

/// The regions of `ms` that the description lists, in their order.
pub open spec fn described_regions(ms: Seq<MemoryLoc>) -> Seq<MemoryLoc> {
    ms.filter(described())
}

pub open spec fn described() -> spec_fn(MemoryLoc) -> bool {
    |m: MemoryLoc| is_described(m)
}

/// Every Flash and RAM region is listed, in order, and nothing else: entry
/// `k` of the listed ranges is the `k`-th Flash or RAM region, non-volatile
/// exactly when it is Flash, named by its id, starting at its location and
/// ending at location + size, with the single core "main".
pub proof fn lemma_every_described_region_listed(ms: Seq<MemoryLoc>)
    ensures
        handled_ranges(ms).len() == described_regions(ms).len(),
        forall|k: int|
            0 <= k < handled_ranges(ms).len() ==> {
                let d = #[trigger] described_regions(ms)[k];
                let r = handled_ranges(ms)[k];
                &&& is_described(d)
                &&& (r.0 == MemoryType::Nvm <==> d.derived_from@ == lit("Flash"))
                &&& r.1 == d.id@
                &&& r.4 == seq![lit("main")]
                &&& all_memory_valid(ms) ==> r.2 == spec_parse_hex(d.location@).unwrap()
                    && r.3 == spec_parse_hex(d.location@).unwrap() + spec_parse_hex(d.size@).unwrap()
            },
    decreases ms.len(),
{
    reveal(Seq::filter);
    if ms.len() > 0 {
        let t = ms.drop_last();
        let m = ms.last();
        lemma_every_described_region_listed(t);
        assert(all_memory_valid(ms) ==> all_memory_valid(t)) by {
            if all_memory_valid(ms) {
                assert forall|i: int| 0 <= i < t.len() implies (#[trigger] memory_bounds(t[i])) is Some by {
                    assert(t[i] == ms[i]);
                }
            }
        }
        if all_memory_valid(ms) {
            assert(memory_bounds(ms[ms.len() - 1]) is Some);
        }
        let lit_flash = lit("Flash");
        if memory_kind(m) is Some {
            assert(described()(m));
            assert(described_regions(ms) == described_regions(t).push(m));
            assert(handled_ranges(ms) == handled_ranges(t) + seq![
                (memory_kind(m).unwrap(), m.id@, memory_bounds(m).unwrap().0, memory_bounds(m).unwrap().1, seq![lit("main")]),
            ]);
            let hs = handled_ranges(ms);
            let ds = described_regions(ms);
            assert forall|k: int| 0 <= k < hs.len() implies {
                let d = #[trigger] ds[k];
                let r = hs[k];
                &&& is_described(d)
                &&& (r.0 == MemoryType::Nvm <==> d.derived_from@ == lit("Flash"))
                &&& r.1 == d.id@
                &&& r.4 == seq![lit("main")]
                &&& all_memory_valid(ms) ==> r.2 == spec_parse_hex(d.location@).unwrap()
                    && r.3 == spec_parse_hex(d.location@).unwrap() + spec_parse_hex(d.size@).unwrap()
            } by {
                if k < hs.len() - 1 {
                    assert(ds[k] == described_regions(t)[k]);
                    assert(hs[k] == handled_ranges(t)[k]);
                } else {
                    assert(ds[k] == m);
                }
            }
        } else {
            assert(!described()(m));
            assert(described_regions(ms) == described_regions(t));
            assert(handled_ranges(ms) =~= handled_ranges(t));
        }
    }
}

/// Whether `a` is a proper prefix of `b`.
pub open spec fn is_proper_prefix(a: Seq<u8>, b: Seq<u8>) -> bool {
    a.len() < b.len() && a == b.take(a.len() as int)
}

/// Whether, at the first index where `a` and `b` differ, `a`'s byte is smaller.
pub open spec fn smaller_at_first_difference(a: Seq<u8>, b: Seq<u8>) -> bool {
    exists|k: int| 0 <= k < a.len() && k < b.len() && a.take(k) == b.take(k) && #[trigger] a[k] < b[k]
}

/// The order of names is the byte-wise lexicographic order of `String::cmp`:
/// `a` comes before `b` exactly when `a` is a proper prefix of `b`, or `a`'s
/// byte is smaller at the first index where they differ.
pub proof fn lemma_id_lt_is_lexicographic(a: Seq<u8>, b: Seq<u8>)
    ensures
        id_lt(a, b) <==> (is_proper_prefix(a, b) || smaller_at_first_difference(a, b)),
    decreases a.len(),
{
    if a.len() == 0 {
        assert(a =~= b.take(0));
    } else if b.len() == 0 {
    } else if a[0] != b[0] {
        if is_proper_prefix(a, b) {
            assert(a[0] == b.take(a.len() as int)[0]);
        }
        if a[0] < b[0] {
            assert(a.take(0) =~= b.take(0));
            assert(smaller_at_first_difference(a, b));
        }
        if smaller_at_first_difference(a, b) {
            let k = choose|k: int| 0 <= k < a.len() && k < b.len() && a.take(k) == b.take(k) && #[trigger] a[k] < b[k];
            if k > 0 {
                assert(a.take(k)[0] == b.take(k)[0]);
            }
        }
    } else {
        let a1 = a.drop_first();
        let b1 = b.drop_first();
        lemma_id_lt_is_lexicographic(a1, b1);
        if is_proper_prefix(a, b) {
            assert(a1 =~= b1.take(a1.len() as int)) by {
                assert forall|i: int| 0 <= i < a1.len() implies #[trigger] a1[i] == b1.take(a1.len() as int)[i] by {
                    assert(a[i + 1] == b.take(a.len() as int)[i + 1]);
                }
            }
        }
        if is_proper_prefix(a1, b1) {
            assert(a =~= b.take(a.len() as int)) by {
                assert forall|i: int| 0 <= i < a.len() implies #[trigger] a[i] == b.take(a.len() as int)[i] by {
                    if i > 0 {
                        assert(a1[i - 1] == b1.take(a1.len() as int)[i - 1]);
                    }
                }
            }
        }
        if smaller_at_first_difference(a, b) {
            let k = choose|k: int| 0 <= k < a.len() && k < b.len() && a.take(k) == b.take(k) && #[trigger] a[k] < b[k];
            assert(k > 0);
            assert(a1.take(k - 1) =~= b1.take(k - 1)) by {
                assert forall|i: int| 0 <= i < k - 1 implies #[trigger] a1.take(k - 1)[i] == b1.take(k - 1)[i] by {
                    assert(a.take(k)[i + 1] == b.take(k)[i + 1]);
                }
            }
            assert(a1[k - 1] < b1[k - 1]);
            assert(smaller_at_first_difference(a1, b1));
        }
        if smaller_at_first_difference(a1, b1) {
            let k = choose|k: int| 0 <= k < a1.len() && k < b1.len() && a1.take(k) == b1.take(k) && #[trigger] a1[k] < b1[k];
            assert(a.take(k + 1) =~= b.take(k + 1)) by {
                assert forall|i: int| 0 <= i < k + 1 implies #[trigger] a.take(k + 1)[i] == b.take(k + 1)[i] by {
                    if i > 0 {
                        assert(a1.take(k)[i - 1] == b1.take(k)[i - 1]);
                    }
                }
            }
            assert(a[k + 1] < b[k + 1]);
            assert(smaller_at_first_difference(a, b));
        }
    }
}

/// Of two distinct names, one comes before the other: the order of names is total.
pub proof fn lemma_id_lt_total(a: Seq<u8>, b: Seq<u8>)
    ensures
        a != b ==> id_lt(a, b) || id_lt(b, a),
    decreases a.len(),
{
    if a.len() > 0 && b.len() > 0 && a[0] == b[0] {
        lemma_id_lt_total(a.drop_first(), b.drop_first());
        if a.drop_first() == b.drop_first() {
            assert(a =~= b) by {
                assert forall|i: int| 0 <= i < a.len() implies #[trigger] a[i] == b[i] by {
                    if i > 0 {
                        assert(a.drop_first()[i - 1] == b.drop_first()[i - 1]);
                    }
                }
            }
        }
    } else if a.len() == 0 && b.len() == 0 {
        assert(a =~= b);
    }
}

} // verus!
