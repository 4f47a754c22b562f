use chip8dis::sweep::{sweep, SweepStatus};

#[test]
fn sweep_scenario_four_words() {
    let image: Vec<u8> = vec![0x00, 0xE0, 0x60, 0x0A, 0xA2, 0x34, 0xD0, 0x15];
    let r = sweep(&image);
    assert_eq!(r.status, SweepStatus::Complete);
    assert_eq!(r.words, 4);
    assert_eq!(r.end_addr, 0x208);
    // The class-0x0 word emits no line; the other three each emit one.
    assert_eq!(r.lines.len(), 3);
    assert_eq!(r.lines[0], "0x202: LD V0, 0A ;; Set the value of register V0 to 0A");
    assert_eq!(r.lines[1], "0x204: LD I, $234 ;; Load address $234 into the special register I");
    assert_eq!(
        r.lines[2],
        "0x206: DRW V0, V1, 5 ;; Draw a sprite at position V0, V1 with 5 bytes of sprite data starting at the address stored in I. Set VF to 01 if any set pixels are changed to unset, and 00 otherwise"
    );
}

#[test]
fn sweep_scenario_self_jump() {
    let image: Vec<u8> = vec![0x12, 0x00];
    let r = sweep(&image);
    assert_eq!(r.status, SweepStatus::Complete);
    assert_eq!(r.words, 1);
    assert_eq!(r.end_addr, 0x202);
    assert_eq!(r.lines.len(), 1);
    assert!(r.lines[0].contains("JP"));
    assert!(r.lines[0].contains("200"));
    assert_eq!(r.lines[0], "0x200: JP $200 ;; Jumps to address $200");
}

#[test]
fn sweep_termination_counts_words() {
    // 2n bytes give exactly n decode/render steps and an address counter of
    // the load address plus 2n.
    let mut image: Vec<u8> = Vec::new();
    for k in 0..10u8 {
        image.push(0x60); // LD V0, kk
        image.push(k);
    }
    let r = sweep(&image);
    assert_eq!(r.status, SweepStatus::Complete);
    assert_eq!(r.words, 10);
    assert_eq!(r.end_addr, 0x200 + 2 * 10);
    assert_eq!(r.lines.len(), 10);
    assert_eq!(r.lines[9], "0x212: LD V0, 09 ;; Set the value of register V0 to 09");
}

#[test]
fn sweep_odd_length_ignores_dangling_byte() {
    // The final incomplete word is never read as an instruction.
    let image: Vec<u8> = vec![0x12, 0x00, 0xFF];
    let r = sweep(&image);
    assert_eq!(r.status, SweepStatus::Complete);
    assert_eq!(r.words, 1);
    assert_eq!(r.end_addr, 0x202);
    assert_eq!(r.lines.len(), 1);
    assert_eq!(r.lines[0], "0x200: JP $200 ;; Jumps to address $200");
}

#[test]
fn sweep_single_dangling_byte_gives_no_output() {
    let image: Vec<u8> = vec![0xFF];
    let r = sweep(&image);
    assert_eq!(r.status, SweepStatus::Complete);
    assert_eq!(r.words, 0);
    assert_eq!(r.end_addr, 0x200);
    assert!(r.lines.is_empty());
}

#[test]
fn sweep_empty_image() {
    let image: Vec<u8> = Vec::new();
    let r = sweep(&image);
    assert_eq!(r.status, SweepStatus::Complete);
    assert_eq!(r.words, 0);
    assert_eq!(r.end_addr, 0x200);
    assert!(r.lines.is_empty());
}

#[test]
fn sweep_stops_on_unsupported_class() {
    // A class-0x9 word has no rendering rule: the sweep stops there and no
    // further lines appear beyond those already written.
    let image: Vec<u8> = vec![0x60, 0x0A, 0x9A, 0xB0, 0x61, 0x02];
    let r = sweep(&image);
    assert_eq!(r.status, SweepStatus::StoppedUnsupported(0x9));
    assert_eq!(r.words, 1);
    assert_eq!(r.end_addr, 0x202);
    assert_eq!(r.lines.len(), 1);
    assert_eq!(r.lines[0], "0x200: LD V0, 0A ;; Set the value of register V0 to 0A");
}

#[test]
fn sweep_stops_on_defect() {
    let image: Vec<u8> = vec![0x12, 0x00, 0x88, 0x88];
    let r = sweep(&image);
    assert_eq!(r.status, SweepStatus::StoppedDefect { class: 0x8, detail: 0x8 });
    assert_eq!(r.words, 1);
    assert_eq!(r.end_addr, 0x202);
    assert_eq!(r.lines.len(), 1);

    let image2: Vec<u8> = vec![0xF0, 0xFF];
    let r2 = sweep(&image2);
    assert_eq!(r2.status, SweepStatus::StoppedDefect { class: 0xF, detail: 0xFF });
    assert_eq!(r2.words, 0);
    assert!(r2.lines.is_empty());
}

#[test]
fn sweep_silent_words_advance_the_address() {
    // Class-0x0 words emit nothing but still consume a word and advance the
    // address counter by two.
    let image: Vec<u8> = vec![0x00, 0xE0, 0x1A, 0xBC];
    let r = sweep(&image);
    assert_eq!(r.status, SweepStatus::Complete);
    assert_eq!(r.words, 2);
    assert_eq!(r.end_addr, 0x204);
    assert_eq!(r.lines.len(), 1);
    assert_eq!(r.lines[0], "0x202: JP $ABC ;; Jumps to address $ABC");
}

#[test]
fn sweep_label_grows_past_three_digits() {
    // Addresses carry no fixed width: past 0xFFF the label simply grows.
    let mut image: Vec<u8> = Vec::new();
    // 0x700 silent words move the counter from 0x200 to 0x1000, then one jump.
    for _ in 0..0x700 {
        image.push(0x00);
        image.push(0x00);
    }
    image.push(0x11);
    image.push(0x11);
    let r = sweep(&image);
    assert_eq!(r.status, SweepStatus::Complete);
    assert_eq!(r.words, 0x701);
    assert_eq!(r.lines.len(), 1);
    assert_eq!(r.lines[0], "0x1000: JP $111 ;; Jumps to address $111");
}
