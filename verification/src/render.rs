use vstd::prelude::*;

use crate::hex::{hex1, hex2, hex3, push_hex1, push_hex2, push_hex3};
use crate::instr::Instruction;

verus! {

/// The outcome of rendering one decoded instruction.
///
/// Failure to render is a value, not an abort: the caller decides whether to
/// stop the run, skip, or substitute a placeholder.
#[derive(Debug, PartialEq, Eq)]
pub enum RenderOutcome {
    /// One line of listing text: mnemonic, operands, explanatory comment.
    Rendered(String),
    /// The class deliberately produces no output (class 0x0).
    Silent,
    /// A structurally valid class with no rendering rule yet; carries the
    /// class.
    Unsupported(u8),
    /// A family-disambiguating sub-field outside its fully-enumerated range:
    /// a decoder-defect signal, distinct from any input problem. Carries the
    /// class and the offending sub-field value.
    Defect { class: u8, detail: u8 },
}

/// Classes that deliberately emit nothing.
pub open spec fn is_silent(i: Instruction) -> bool {
    i.msb == 0x0
}

/// Structurally valid opcodes whose family has no rendering rule yet:
/// classes 0x9, 0xB and 0xE, and the shift members of the ALU family.
pub open spec fn is_unsupported(i: Instruction) -> bool {
    ||| i.msb == 0x9
    ||| i.msb == 0xB
    ||| i.msb == 0xE
    ||| (i.msb == 0x8 && (i.nibble == 0x6 || i.nibble == 0xE))
}

/// Sub-field values outside the fully-enumerated space of their family: an
/// ALU sub-operation no CHIP-8 opcode has, or a class-0xF selector byte other
/// than the two defined ones.
pub open spec fn is_defect(i: Instruction) -> bool {
    ||| (i.msb == 0x8 && i.nibble != 0x6 && i.nibble != 0xE && !(i.nibble <= 0x5
        || i.nibble == 0x7))
    ||| (i.msb == 0xF && i.kk_byte != 0x07 && i.kk_byte != 0x0A)
}

/// The offending sub-field value of a defective opcode.
pub open spec fn defect_detail(i: Instruction) -> u8 {
    if i.msb == 0x8 {
        i.nibble
    } else {
        i.kk_byte
    }
}

/// The listing line of an instruction whose class has a rendering rule and is
/// neither silent, unsupported nor defective; empty on the other classes.
pub open spec fn spec_line(i: Instruction) -> Seq<char> {
    let x = hex1(i.x as int);
    let y = hex1(i.y as int);
    let kk = hex2(i.kk_byte as int);
    let a = hex3(i.address as int);
    let n = hex1(i.nibble as int);
    if i.msb == 0x1 {
        "JP $"@ + a + " ;; Jumps to address $"@ + a
    } else if i.msb == 0x2 {
        "CALL $"@ + a + " ;; Jumps to subroutine at $"@ + a
    } else if i.msb == 0x3 {
        "SE V"@ + x + ", "@ + kk + " ;; Skip the next instruction if the value in register V"@ + x
            + " is equal to "@ + kk
    } else if i.msb == 0x4 {
        "SNE V"@ + x + ", "@ + kk + " ;; Skip the next instruction if the value in register V"@ + x
            + " is not equal to "@ + kk
    } else if i.msb == 0x5 {
        "SE V"@ + x + ", V"@ + y
            + " ;; Skip the next instruction if the values in registers V"@ + x + " and V"@ + y
            + " are equal"@
    } else if i.msb == 0x6 {
        "LD V"@ + x + ", "@ + kk + " ;; Set the value of register V"@ + x + " to "@ + kk
    } else if i.msb == 0x7 {
        "ADD V"@ + x + ", "@ + kk + " ;; Add "@ + kk + " to the value in register V"@ + x
    } else if i.msb == 0x8 {
        if i.nibble == 0x0 {
            "LD V"@ + x + ", V"@ + y + " ;; Store the value of register V"@ + x
                + " to the value of register V"@ + y
        } else if i.nibble == 0x1 {
            "OR V"@ + x + ", V"@ + y + " ;; Set the value of register V"@ + x + " to V"@ + x
                + " OR V"@ + y
        } else if i.nibble == 0x2 {
            "AND V"@ + x + ", V"@ + y + " ;; Set the value of register V"@ + x + " to V"@ + x
                + " AND V"@ + y
        } else if i.nibble == 0x3 {
            "XOR V"@ + x + ", V"@ + y + " ;; Set the value of register V"@ + x + " to V"@ + x
                + " XOR V"@ + y
        } else if i.nibble == 0x4 {
            "ADD V"@ + x + ", V"@ + y + " ;; Set the value of register V"@ + x + " to V"@ + x
                + " + V"@ + y + ". If the result is >255, set VF to 1, and 0 otherwise"@
        } else if i.nibble == 0x5 {
            "SUB V"@ + x + ", V"@ + y + " ;; Set the value of register V"@ + x + " to V"@ + x
                + " - V"@ + y + ". If V"@ + x + " > V"@ + y + ", set VF to 1, and 0 otherwise"@
        } else if i.nibble == 0x7 {
            "SUBN V"@ + x + ", V"@ + y + " ;; Set the value of register V"@ + x + " to V"@ + y
                + " - V"@ + x + ". If V"@ + x + " < V"@ + y + ", set VF to 1, and 0 otherwise"@
        } else {
            Seq::empty()
        }
    } else if i.msb == 0xA {
        "LD I, $"@ + a + " ;; Load address $"@ + a + " into the special register I"@
    } else if i.msb == 0xC {
        "RND V"@ + x + ", "@ + kk + " ;; Set V"@ + x + " to a random number with a mask of "@ + kk
    } else if i.msb == 0xD {
        "DRW V"@ + x + ", V"@ + y + ", "@ + n + " ;; Draw a sprite at position V"@ + x + ", V"@ + y
            + " with "@ + n
            + " bytes of sprite data starting at the address stored in I. Set VF to 01 if any set pixels are changed to unset, and 00 otherwise"@
    } else if i.msb == 0xF {
        if i.kk_byte == 0x07 {
            "LD V"@ + x + ", DT ;; Load the value of the delay timer into V"@ + x
        } else if i.kk_byte == 0x0A {
            "LD V"@ + x + ", K ;; Wait for a keypress, then store that value into register V"@ + x
                + ". This opcode blocks"@
        } else {
            Seq::empty()
        }
    } else if i.msb > 0xF {
        "Unknown instruction"@
    } else {
        Seq::empty()
    }
}

/// What the renderer owes for each instruction: exactly one of the four
/// outcomes, picked by the class and its sub-field, with the text of a
/// rendered line pinned by `spec_line`.
pub open spec fn render_ok(i: Instruction, r: RenderOutcome) -> bool {
    if is_silent(i) {
        r is Silent
    } else if is_unsupported(i) {
        r == RenderOutcome::Unsupported(i.msb)
    } else if is_defect(i) {
        r == (RenderOutcome::Defect { class: i.msb, detail: defect_detail(i) })
    } else {
        r matches RenderOutcome::Rendered(s) && s@ == spec_line(i)
    }
}

/// Round trip on address-only jump instructions: for every 12-bit address
/// `a`, the word built as `0x1000 | a` decodes to a class-0x1 instruction
/// whose rendered line carries `a` back as exactly three hex digits, right
/// after the `JP $` mnemonic.
pub proof fn lemma_jp_round_trip(a: u16)
    requires
        a < 0x1000,
    ensures
        Instruction::spec_decode(0x1000 | a).msb == 0x1,
        Instruction::spec_decode(0x1000 | a).address == a,
        spec_line(Instruction::spec_decode(0x1000 | a)).len() > 7,
        spec_line(Instruction::spec_decode(0x1000 | a)).subrange(4, 7) == hex3(a as int),
{
    assert(0x1000 | a == (0x1000 + a) as u16) by (bit_vector)
        requires
            a < 0x1000,
    ;
    let w = (0x1000 + a) as u16;
    assert(w / 0x1000 == 0x1);
    assert(w % 0x1000 == a);
    let i = Instruction::spec_decode(w);
    reveal_strlit("JP $");
    reveal_strlit(" ;; Jumps to address $");
    assert(spec_line(i).subrange(4, 7) =~= hex3(a as int));
}

/// Render one decoded instruction to its listing line, or report why no line
/// exists. Total over every record with in-range operands: rendering never
/// panics, and a class outside the 4-bit space gets a literal fallback line.
pub fn render(instr: &Instruction) -> (r: RenderOutcome)
    requires
        instr.operands_in_range(),
    ensures
        render_ok(*instr, r),
{
    match instr.msb {
        0x0 => RenderOutcome::Silent,
        0x1 => {
            let mut s = String::new();
            s.append("JP $");
            push_hex3(&mut s, instr.address);
            s.append(" ;; Jumps to address $");
            push_hex3(&mut s, instr.address);
            proof {
                assert(s@ =~= spec_line(*instr));
            }
            RenderOutcome::Rendered(s)
        },
        0x2 => {
            let mut s = String::new();
            s.append("CALL $");
            push_hex3(&mut s, instr.address);
            s.append(" ;; Jumps to subroutine at $");
            push_hex3(&mut s, instr.address);
            proof {
                assert(s@ =~= spec_line(*instr));
            }
            RenderOutcome::Rendered(s)
        },
        0x3 => {
            let mut s = String::new();
            s.append("SE V");
            push_hex1(&mut s, instr.x);
            s.append(", ");
            push_hex2(&mut s, instr.kk_byte);
            s.append(" ;; Skip the next instruction if the value in register V");
            push_hex1(&mut s, instr.x);
            s.append(" is equal to ");
            push_hex2(&mut s, instr.kk_byte);
            proof {
                assert(s@ =~= spec_line(*instr));
            }
            RenderOutcome::Rendered(s)
        },
        0x4 => {
            let mut s = String::new();
            s.append("SNE V");
            push_hex1(&mut s, instr.x);
            s.append(", ");
            push_hex2(&mut s, instr.kk_byte);
            s.append(" ;; Skip the next instruction if the value in register V");
            push_hex1(&mut s, instr.x);
            s.append(" is not equal to ");
            push_hex2(&mut s, instr.kk_byte);
            proof {
                assert(s@ =~= spec_line(*instr));
            }
            RenderOutcome::Rendered(s)
        },
        0x5 => {
            let mut s = String::new();
            s.append("SE V");
            push_hex1(&mut s, instr.x);
            s.append(", V");
            push_hex1(&mut s, instr.y);
            s.append(" ;; Skip the next instruction if the values in registers V");
            push_hex1(&mut s, instr.x);
            s.append(" and V");
            push_hex1(&mut s, instr.y);
            s.append(" are equal");
            proof {
                assert(s@ =~= spec_line(*instr));
            }
            RenderOutcome::Rendered(s)
        },
        0x6 => {
            let mut s = String::new();
            s.append("LD V");
            push_hex1(&mut s, instr.x);
            s.append(", ");
            push_hex2(&mut s, instr.kk_byte);
            s.append(" ;; Set the value of register V");
            push_hex1(&mut s, instr.x);
            s.append(" to ");
            push_hex2(&mut s, instr.kk_byte);
            proof {
                assert(s@ =~= spec_line(*instr));
            }
            RenderOutcome::Rendered(s)
        },
        0x7 => {
            let mut s = String::new();
            s.append("ADD V");
            push_hex1(&mut s, instr.x);
            s.append(", ");
            push_hex2(&mut s, instr.kk_byte);
            s.append(" ;; Add ");
            push_hex2(&mut s, instr.kk_byte);
            s.append(" to the value in register V");
            push_hex1(&mut s, instr.x);
            proof {
                assert(s@ =~= spec_line(*instr));
            }
            RenderOutcome::Rendered(s)
        },
        0x8 => match instr.nibble {
            0x0 => {
                let mut s = String::new();
                s.append("LD V");
                push_hex1(&mut s, instr.x);
                s.append(", V");
                push_hex1(&mut s, instr.y);
                s.append(" ;; Store the value of register V");
                push_hex1(&mut s, instr.x);
                s.append(" to the value of register V");
                push_hex1(&mut s, instr.y);
                proof {
                    assert(s@ =~= spec_line(*instr));
                }
                RenderOutcome::Rendered(s)
            },
            0x1 => {
                let mut s = String::new();
                s.append("OR V");
                push_hex1(&mut s, instr.x);
                s.append(", V");
                push_hex1(&mut s, instr.y);
                s.append(" ;; Set the value of register V");
                push_hex1(&mut s, instr.x);
                s.append(" to V");
                push_hex1(&mut s, instr.x);
                s.append(" OR V");
                push_hex1(&mut s, instr.y);
                proof {
                    assert(s@ =~= spec_line(*instr));
                }
                RenderOutcome::Rendered(s)
            },
            0x2 => {
                let mut s = String::new();
                s.append("AND V");
                push_hex1(&mut s, instr.x);
                s.append(", V");
                push_hex1(&mut s, instr.y);
                s.append(" ;; Set the value of register V");
                push_hex1(&mut s, instr.x);
                s.append(" to V");
                push_hex1(&mut s, instr.x);
                s.append(" AND V");
                push_hex1(&mut s, instr.y);
                proof {
                    assert(s@ =~= spec_line(*instr));
                }
                RenderOutcome::Rendered(s)
            },
            0x3 => {
                let mut s = String::new();
                s.append("XOR V");
                push_hex1(&mut s, instr.x);
                s.append(", V");
                push_hex1(&mut s, instr.y);
                s.append(" ;; Set the value of register V");
                push_hex1(&mut s, instr.x);
                s.append(" to V");
                push_hex1(&mut s, instr.x);
                s.append(" XOR V");
                push_hex1(&mut s, instr.y);
                proof {
                    assert(s@ =~= spec_line(*instr));
                }
                RenderOutcome::Rendered(s)
            },
            0x4 => {
                let mut s = String::new();
                s.append("ADD V");
                push_hex1(&mut s, instr.x);
                s.append(", V");
                push_hex1(&mut s, instr.y);
                s.append(" ;; Set the value of register V");
                push_hex1(&mut s, instr.x);
                s.append(" to V");
                push_hex1(&mut s, instr.x);
                s.append(" + V");
                push_hex1(&mut s, instr.y);
                s.append(". If the result is >255, set VF to 1, and 0 otherwise");
                proof {
                    assert(s@ =~= spec_line(*instr));
                }
                RenderOutcome::Rendered(s)
            },
            0x5 => {
                let mut s = String::new();
                s.append("SUB V");
                push_hex1(&mut s, instr.x);
                s.append(", V");
                push_hex1(&mut s, instr.y);
                s.append(" ;; Set the value of register V");
                push_hex1(&mut s, instr.x);
                s.append(" to V");
                push_hex1(&mut s, instr.x);
                s.append(" - V");
                push_hex1(&mut s, instr.y);
                s.append(". If V");
                push_hex1(&mut s, instr.x);
                s.append(" > V");
                push_hex1(&mut s, instr.y);
                s.append(", set VF to 1, and 0 otherwise");
                proof {
                    assert(s@ =~= spec_line(*instr));
                }
                RenderOutcome::Rendered(s)
            },
            0x6 => RenderOutcome::Unsupported(instr.msb),
            0x7 => {
                let mut s = String::new();
                s.append("SUBN V");
                push_hex1(&mut s, instr.x);
                s.append(", V");
                push_hex1(&mut s, instr.y);
                s.append(" ;; Set the value of register V");
                push_hex1(&mut s, instr.x);
                s.append(" to V");
                push_hex1(&mut s, instr.y);
                s.append(" - V");
                push_hex1(&mut s, instr.x);
                s.append(". If V");
                push_hex1(&mut s, instr.x);
                s.append(" < V");
                push_hex1(&mut s, instr.y);
                s.append(", set VF to 1, and 0 otherwise");
                proof {
                    assert(s@ =~= spec_line(*instr));
                }
                RenderOutcome::Rendered(s)
            },
            0xE => RenderOutcome::Unsupported(instr.msb),
            _ => RenderOutcome::Defect { class: instr.msb, detail: instr.nibble },
        },
        0x9 => RenderOutcome::Unsupported(instr.msb),
        0xA => {
            let mut s = String::new();
            s.append("LD I, $");
            push_hex3(&mut s, instr.address);
            s.append(" ;; Load address $");
            push_hex3(&mut s, instr.address);
            s.append(" into the special register I");
            proof {
                assert(s@ =~= spec_line(*instr));
            }
            RenderOutcome::Rendered(s)
        },
        0xB => RenderOutcome::Unsupported(instr.msb),
        0xC => {
            let mut s = String::new();
            s.append("RND V");
            push_hex1(&mut s, instr.x);
            s.append(", ");
            push_hex2(&mut s, instr.kk_byte);
            s.append(" ;; Set V");
            push_hex1(&mut s, instr.x);
            s.append(" to a random number with a mask of ");
            push_hex2(&mut s, instr.kk_byte);
            proof {
                assert(s@ =~= spec_line(*instr));
            }
            RenderOutcome::Rendered(s)
        },
        0xD => {
            let mut s = String::new();
            s.append("DRW V");
            push_hex1(&mut s, instr.x);
            s.append(", V");
            push_hex1(&mut s, instr.y);
            s.append(", ");
            push_hex1(&mut s, instr.nibble);
            s.append(" ;; Draw a sprite at position V");
            push_hex1(&mut s, instr.x);
            s.append(", V");
            push_hex1(&mut s, instr.y);
            s.append(" with ");
            push_hex1(&mut s, instr.nibble);
            s.append(
                " bytes of sprite data starting at the address stored in I. Set VF to 01 if any set pixels are changed to unset, and 00 otherwise",
            );
            proof {
                assert(s@ =~= spec_line(*instr));
            }
            RenderOutcome::Rendered(s)
        },
        0xE => RenderOutcome::Unsupported(instr.msb),
        0xF => match instr.kk_byte {
            0x07 => {
                let mut s = String::new();
                s.append("LD V");
                push_hex1(&mut s, instr.x);
                s.append(", DT ;; Load the value of the delay timer into V");
                push_hex1(&mut s, instr.x);
                proof {
                    assert(s@ =~= spec_line(*instr));
                }
                RenderOutcome::Rendered(s)
            },
            0x0A => {
                let mut s = String::new();
                s.append("LD V");
                push_hex1(&mut s, instr.x);
                s.append(", K ;; Wait for a keypress, then store that value into register V");
                push_hex1(&mut s, instr.x);
                s.append(". This opcode blocks");
                proof {
                    assert(s@ =~= spec_line(*instr));
                }
                RenderOutcome::Rendered(s)
            },
            _ => RenderOutcome::Defect { class: instr.msb, detail: instr.kk_byte },
        },
        _ => {
            let mut s = String::new();
            s.append("Unknown instruction");
            proof {
                assert(s@ =~= spec_line(*instr));
            }
            RenderOutcome::Rendered(s)
        },
    }
}

} // verus!
