use vstd::prelude::*;

verus! {

/// Number of 64-bit words in a CPU set that names up to 1024 processors.
pub const CPU_SET_WORDS: usize = 16;

/// Largest number of logical processors a CPU set can name.
pub const MAX_CPUS: usize = 1024;

/// Processor number that marks a processor the topology query does not know.
pub const UNKNOWN_NODE: u16 = 0xffff;

/// A logical processor as a pin target: its processor group, its number
/// within the group, and the NUMA node it belongs to.
#[derive(Clone, Copy, Default, Debug, PartialEq, Eq, Structural)]
pub struct NumaInfo {
    pub group: u16,
    pub number: u8,
    pub numa_id: u16,
}

/// Word `w` of the CPU set that names only processor `core_id`.
pub open spec fn cpu_set_word(core_id: nat, w: int) -> u64 {
    if w == core_id / 64 {
        1u64 << ((core_id % 64) as u64)
    } else {
        0
    }
}

/// The CPU set, as 64-bit words, in which only processor `core_id` is set:
/// bit `core_id % 64` of word `core_id / 64`.
pub fn cpu_set_for(core_id: usize) -> (words: Vec<u64>)
    requires
        core_id < MAX_CPUS,
    ensures
        words@.len() == CPU_SET_WORDS,
        forall|w: int| 0 <= w < CPU_SET_WORDS ==> #[trigger] words@[w] == cpu_set_word(core_id as nat, w),
{
    let word_idx = core_id / 64;
    let bit_idx = (core_id % 64) as u64;
    let mut words: Vec<u64> = Vec::new();
    let mut w: usize = 0;
    while w < CPU_SET_WORDS
        invariant
            w <= CPU_SET_WORDS,
            word_idx == core_id / 64,
            bit_idx == core_id % 64,
            words@.len() == w,
            forall|k: int| 0 <= k < w ==> #[trigger] words@[k] == cpu_set_word(core_id as nat, k),
        decreases CPU_SET_WORDS - w,
    {
        if w == word_idx {
            words.push(1u64 << bit_idx);
        } else {
            words.push(0);
        }
        w = w + 1;
    }
    words
}

/// The single-bit affinity mask that selects processor `number` of its group.
pub fn group_affinity_mask(info: NumaInfo) -> (mask: u64)
    requires
        info.number < 64,
    ensures
        mask == 1u64 << (info.number as u64),
{
    1u64 << (info.number as u64)
}

/// The NUMA node of a processor as the topology query reported it: none
/// when the query failed or marked the processor as unknown.
pub fn numa_node_from_query(succeeded: bool, node: u16) -> (r: Option<u16>)
    ensures
        r == (if succeeded && node != UNKNOWN_NODE { Some(node) } else { None::<u16> }),
{
    if !succeeded {
        None
    } else if node == UNKNOWN_NODE {
        None
    } else {
        Some(node)
    }
}

/// The bytes of the word that opens each processor entry of `/proc/cpuinfo`.
pub open spec fn processor_tag() -> Seq<u8> {
    seq![0x70u8, 0x72u8, 0x6fu8, 0x63u8, 0x65u8, 0x73u8, 0x73u8, 0x6fu8, 0x72u8]
}

/// A line of `text` starts at byte `i`.
pub open spec fn line_starts_at(text: Seq<u8>, i: int) -> bool {
    i == 0 || (0 < i <= text.len() && text[i - 1] == 0x0au8)
}

/// The line starting at byte `i` begins with the processor tag.
pub open spec fn processor_line_at(text: Seq<u8>, i: int) -> bool {
    &&& 0 <= i
    &&& line_starts_at(text, i)
    &&& i + processor_tag().len() <= text.len()
    &&& text.subrange(i, i + processor_tag().len()) == processor_tag()
}

/// Number of lines among those starting before byte `n` that begin with the
/// processor tag.
pub open spec fn processor_lines_before(text: Seq<u8>, n: int) -> nat
    decreases n,
{
    if n <= 0 {
        0
    } else {
        processor_lines_before(text, n - 1) + if processor_line_at(text, n - 1) {
            1nat
        } else {
            0nat
        }
    }
}

fn tag_at(text: &[u8], i: usize) -> (r: bool)
    requires
        i <= text@.len(),
    ensures
        r == (i + processor_tag().len() <= text@.len() && text@.subrange(
            i as int,
            i + processor_tag().len(),
        ) == processor_tag()),
{
    let tag: [u8; 9] = [0x70u8, 0x72u8, 0x6fu8, 0x63u8, 0x65u8, 0x73u8, 0x73u8, 0x6fu8, 0x72u8];
    assert(tag@ =~= processor_tag());
    if text.len() - i < 9 {
        return false;
    }
    let mut k: usize = 0;
    while k < 9
        invariant
            k <= 9,
            i + 9 <= text@.len(),
            text@.len() == text.len(),
            tag@ == processor_tag(),
            forall|m: int| 0 <= m < k ==> text@[i + m] == #[trigger] tag@[m],
        decreases 9 - k,
    {
        if text[i + k] != tag[k] {
            assert(text@.subrange(i as int, i + 9)[k as int] != processor_tag()[k as int]);
            return false;
        }
        k = k + 1;
    }
    assert(text@.subrange(i as int, i + 9) =~= processor_tag());
    true
}

/// Number of logical processors that `/proc/cpuinfo` lists: the lines that
/// begin with `processor`.
pub fn count_processor_entries(cpuinfo: &[u8]) -> (n: usize)
    ensures
        n == processor_lines_before(cpuinfo@, cpuinfo@.len() as int),
{
    let len = cpuinfo.len();
    let mut n: usize = 0;
    let mut i: usize = 0;
    while i < len
        invariant
            len == cpuinfo@.len(),
            i <= len,
            n == processor_lines_before(cpuinfo@, i as int),
            n <= i,
        decreases len - i,
    {
        let at_line_start = i == 0 || cpuinfo[i - 1] == 0x0au8;
        if at_line_start && tag_at(cpuinfo, i) {
            n = n + 1;
        }
        i = i + 1;
    }
    n
}

} // verus!
