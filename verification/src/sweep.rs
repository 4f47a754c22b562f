use vstd::prelude::*;

use crate::hex::{hex_min, push_hex_min};
use crate::instr::Instruction;
use crate::render::{
    defect_detail, is_defect, is_silent, is_unsupported, render, spec_line, RenderOutcome,
};

verus! {

/// The CHIP-8 load address: the memory address of the first word of a
/// program image.
pub const LOAD_ADDRESS: u64 = 0x200;

/// The big-endian 16-bit word at word index `i` of the image.
pub open spec fn spec_word(bytes: Seq<u8>, i: int) -> u16 {
    (bytes[2 * i] * 0x100 + bytes[2 * i + 1]) as u16
}

/// How many whole words the image holds; a trailing odd byte is not a word.
pub open spec fn n_words(bytes: Seq<u8>) -> int {
    bytes.len() as int / 2
}

/// Whether this instruction stops the sweep instead of contributing output:
/// either its family has no rendering rule yet, or a fully-enumerated
/// sub-field carries an impossible value.
pub open spec fn stops_sweep(i: Instruction) -> bool {
    is_unsupported(i) || is_defect(i)
}

/// The first word index at or after `i` whose instruction stops the sweep,
/// or the word count when every word from `i` on renders.
pub open spec fn stop_from(bytes: Seq<u8>, i: int) -> int
    decreases n_words(bytes) - i,
{
    if i < 0 || i >= n_words(bytes) {
        i
    } else if stops_sweep(Instruction::spec_decode(spec_word(bytes, i))) {
        i
    } else {
        stop_from(bytes, i + 1)
    }
}

/// The word index at which the sweep stops; the word count when the whole
/// image renders.
pub open spec fn spec_stop(bytes: Seq<u8>) -> int {
    stop_from(bytes, 0)
}

/// The bracket-free memory-address label put in front of each listing line.
pub open spec fn spec_label(addr: nat) -> Seq<char> {
    "0x"@ + hex_min(addr) + ": "@
}

/// The memory address of the word at index `i`.
pub open spec fn addr_of(i: int) -> int {
    LOAD_ADDRESS + 2 * i
}

/// The full listing line of the word at index `i`: its address label
/// followed by its rendered text.
pub open spec fn line_at(bytes: Seq<u8>, i: int) -> Seq<char> {
    spec_label(addr_of(i) as nat) + spec_line(Instruction::spec_decode(spec_word(bytes, i)))
}

/// The listing lines of the first `n` words of the image, in address order:
/// one line per word whose class has a rendering rule, none for silent words.
pub open spec fn lines_upto(bytes: Seq<u8>, n: int) -> Seq<Seq<char>>
    decreases n,
{
    if n <= 0 {
        Seq::empty()
    } else {
        let i = Instruction::spec_decode(spec_word(bytes, n - 1));
        if is_silent(i) || stops_sweep(i) {
            lines_upto(bytes, n - 1)
        } else {
            lines_upto(bytes, n - 1).push(line_at(bytes, n - 1))
        }
    }
}

/// How a sweep over a program image ended.
#[derive(Clone, Copy, Debug, PartialEq, Eq)]
pub enum SweepStatus {
    /// Every whole word of the image was decoded and dispatched.
    Complete,
    /// A word whose family has no rendering rule stopped the sweep; carries
    /// the class.
    StoppedUnsupported(u8),
    /// A word with an impossible sub-field value stopped the sweep; carries
    /// the class and the offending sub-field value.
    StoppedDefect { class: u8, detail: u8 },
}

/// What a sweep produced: the listing written so far, how it ended, and how
/// far it came.
pub struct SweepResult {
    /// The listing lines, in address order, of the words rendered before the
    /// sweep finished or stopped.
    pub lines: Vec<String>,
    /// How the sweep ended.
    pub status: SweepStatus,
    /// How many words were rendered (or deliberately silent); on a stop, the
    /// stopping word is not counted.
    pub words: usize,
    /// The memory-address counter after the sweep: the load address plus two
    /// per word counted in `words`.
    pub end_addr: u64,
}

/// `stop_from(bytes, i)` is `k` when no word in `i..k` stops the sweep and
/// `k` is the word count or the word at `k` stops it.
proof fn lemma_stop_from_value(bytes: Seq<u8>, i: int, k: int)
    requires
        0 <= i <= k <= n_words(bytes),
        forall|j: int|
            i <= j < k ==> !stops_sweep(#[trigger] Instruction::spec_decode(spec_word(bytes, j))),
        k == n_words(bytes) || stops_sweep(Instruction::spec_decode(spec_word(bytes, k))),
    ensures
        stop_from(bytes, i) == k,
    decreases k - i,
{
    if i < k {
        assert(!stops_sweep(Instruction::spec_decode(spec_word(bytes, i))));
        lemma_stop_from_value(bytes, i + 1, k);
    }
}

/// Each decode/render step appends at most one listing line: `n` words give
/// at most `n` lines.
pub proof fn lemma_one_line_per_word(bytes: Seq<u8>, n: int)
    requires
        0 <= n <= n_words(bytes),
    ensures
        lines_upto(bytes, n).len() <= n,
    decreases n,
{
    if n > 0 {
        lemma_one_line_per_word(bytes, n - 1);
    }
}

/// The listing is append-only: the lines of the first `m` words stay, as a
/// prefix and unchanged, in the lines of the first `n` words, for `m <= n`.
pub proof fn lemma_listing_append_only(bytes: Seq<u8>, m: int, n: int)
    requires
        0 <= m <= n,
    ensures
        lines_upto(bytes, m).is_prefix_of(lines_upto(bytes, n)),
    decreases n - m,
{
    if m < n {
        lemma_listing_append_only(bytes, m, n - 1);
    }
}

/// Sweep termination: over an image whose every whole word has a rendering
/// rule (or is deliberately silent), the sweep stops nowhere short, so with
/// `2 * n` (or `2 * n + 1`) bytes it performs exactly `n` decode/render steps
/// and, by the sweep's contract, ends with the address counter at the load
/// address plus `2 * n`.
pub proof fn lemma_sweep_termination(bytes: Seq<u8>)
    requires
        forall|j: int|
            0 <= j < n_words(bytes) ==> !stops_sweep(
                #[trigger] Instruction::spec_decode(spec_word(bytes, j)),
            ),
    ensures
        spec_stop(bytes) == n_words(bytes),
{
    lemma_stop_from_value(bytes, 0, n_words(bytes));
}

/// Two images whose whole words agree are swept alike from any start index.
proof fn lemma_stop_from_eq(b1: Seq<u8>, b2: Seq<u8>, i: int)
    requires
        n_words(b1) == n_words(b2),
        forall|j: int| 0 <= j < n_words(b1) ==> spec_word(b1, j) == spec_word(b2, j),
    ensures
        stop_from(b1, i) == stop_from(b2, i),
    decreases n_words(b1) - i,
{
    if 0 <= i < n_words(b1) {
        if !stops_sweep(Instruction::spec_decode(spec_word(b1, i))) {
            lemma_stop_from_eq(b1, b2, i + 1);
        }
    }
}

/// Two images whose whole words agree yield the same listing lines.
proof fn lemma_lines_upto_eq(b1: Seq<u8>, b2: Seq<u8>, n: int)
    requires
        n_words(b1) == n_words(b2),
        forall|j: int| 0 <= j < n_words(b1) ==> spec_word(b1, j) == spec_word(b2, j),
        n <= n_words(b1),
    ensures
        lines_upto(b1, n) == lines_upto(b2, n),
    decreases n,
{
    if n > 0 {
        lemma_lines_upto_eq(b1, b2, n - 1);
        assert(spec_word(b1, n - 1) == spec_word(b2, n - 1));
    }
}

/// An odd-length image behaves exactly like the image without its dangling
/// final byte: that byte belongs to no whole word, so it is never read as an
/// instruction, moves the stop point nowhere, and adds no output line.
pub proof fn lemma_dangling_byte_ignored(bytes: Seq<u8>)
    requires
        bytes.len() % 2 == 1,
    ensures
        n_words(bytes) == n_words(bytes.drop_last()),
        spec_stop(bytes) == spec_stop(bytes.drop_last()),
        lines_upto(bytes, n_words(bytes)) == lines_upto(bytes.drop_last(), n_words(bytes)),
{
    let t = bytes.drop_last();
    assert forall|j: int| 0 <= j < n_words(bytes) implies spec_word(bytes, j) == spec_word(
        t,
        j,
    ) by {
        assert(t[2 * j] == bytes[2 * j]);
        assert(t[2 * j + 1] == bytes[2 * j + 1]);
    }
    lemma_stop_from_eq(bytes, t, 0);
    lemma_lines_upto_eq(bytes, t, n_words(bytes));
}

/// Linear sweep over a program image: decode consecutive big-endian words
/// from offset 0, render each, and collect one address-labeled line per
/// rendered word. A word with no rendering rule or with a defective
/// sub-field stops the sweep at that word; a trailing odd byte is never read
/// as part of a word.
pub fn sweep(bytes: &Vec<u8>) -> (r: SweepResult)
    requires
        bytes@.len() + LOAD_ADDRESS <= u64::MAX,
    ensures
        r.words == spec_stop(bytes@),
        r.words <= n_words(bytes@),
        r.lines.deep_view() == lines_upto(bytes@, r.words as int),
        r.end_addr == LOAD_ADDRESS + 2 * r.words,
        (r.status is Complete) <==> r.words == n_words(bytes@),
        r.words < n_words(bytes@) ==> {
            let i = Instruction::spec_decode(spec_word(bytes@, r.words as int));
            &&& stops_sweep(i)
            &&& (is_unsupported(i) ==> r.status == SweepStatus::StoppedUnsupported(i.msb))
            &&& (is_defect(i) ==> r.status == (SweepStatus::StoppedDefect {
                class: i.msb,
                detail: defect_detail(i),
            }))
        },
{
    let n = bytes.len() / 2;
    let mut lines: Vec<String> = Vec::new();
    let mut idx: usize = 0;
    let mut addr: u64 = LOAD_ADDRESS;
    while idx < n
        invariant
            n == n_words(bytes@),
            bytes@.len() <= usize::MAX,
            bytes@.len() + LOAD_ADDRESS <= u64::MAX,
            idx <= n,
            addr == LOAD_ADDRESS + 2 * idx,
            forall|j: int|
                0 <= j < idx ==> !stops_sweep(
                    #[trigger] Instruction::spec_decode(spec_word(bytes@, j)),
                ),
            lines.deep_view() == lines_upto(bytes@, idx as int),
        decreases n - idx,
    {
        proof {
            assert(2 * n_words(bytes@) <= bytes@.len());
            assert(2 * (idx as int) + 1 < bytes@.len());
        }
        let hi = bytes[2 * idx];
        let lo = bytes[2 * idx + 1];
        let w: u16 = ((hi as u16) << 8) | (lo as u16);
        proof {
            assert(((hi as u16) << 8) | (lo as u16) == hi * 0x100 + lo) by (bit_vector);
            assert(w == spec_word(bytes@, idx as int));
        }
        let instr = Instruction::from_u16(w);
        match render(&instr) {
            RenderOutcome::Silent => {},
            RenderOutcome::Rendered(line) => {
                let mut full = String::new();
                full.append("0x");
                push_hex_min(&mut full, addr);
                full.append(": ");
                full.append(line.as_str());
                proof {
                    assert(full@ =~= line_at(bytes@, idx as int));
                }
                lines.push(full);
            },
            RenderOutcome::Unsupported(class) => {
                proof {
                    lemma_stop_from_value(bytes@, 0, idx as int);
                }
                return SweepResult {
                    lines,
                    status: SweepStatus::StoppedUnsupported(class),
                    words: idx,
                    end_addr: addr,
                };
            },
            RenderOutcome::Defect { class, detail } => {
                proof {
                    lemma_stop_from_value(bytes@, 0, idx as int);
                }
                return SweepResult {
                    lines,
                    status: SweepStatus::StoppedDefect { class, detail },
                    words: idx,
                    end_addr: addr,
                };
            },
        }
        idx = idx + 1;
        addr = addr + 2;
        proof {
            assert(lines.deep_view() =~= lines_upto(bytes@, idx as int));
        }
    }
    proof {
        lemma_stop_from_value(bytes@, 0, n as int);
    }
    SweepResult { lines, status: SweepStatus::Complete, words: idx, end_addr: addr }
}

} // verus!
