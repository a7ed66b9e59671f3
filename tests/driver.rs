use st7735_lcd::driver::{Orientation, ST7735};
use st7735_lcd::exchange::Exchange;
use st7735_lcd::instruction::Instruction;
use st7735_lcd::instruction_st7789::InstructionST7789;
use st7735_lcd::wire::{word_bytes, Op};

/// Plays an exchange against fake hardware that records every operation and
/// fails the transmission with the given 1-based number, if any.
fn play(mut ex: Exchange, fail_on_send: Option<usize>) -> (Vec<Op>, Result<(), ()>) {
    let mut seen: Vec<Op> = Vec::new();
    let mut sends: usize = 0;
    assert_eq!(ex.outcome().is_none(), ex.pending().is_some());
    while let Some(op) = ex.pending() {
        let ok = match op {
            Op::Reset(level) => {
                seen.push(Op::Reset(*level));
                true
            }
            Op::Select(level) => {
                seen.push(Op::Select(*level));
                true
            }
            Op::Send(bytes) => {
                seen.push(Op::Send(bytes.clone()));
                sends += 1;
                fail_on_send != Some(sends)
            }
            Op::Pause(ms) => {
                seen.push(Op::Pause(*ms));
                true
            }
        };
        ex.advance(ok);
    }
    (seen, ex.outcome().expect("finished exchange has an outcome"))
}

fn command(opcode: u8) -> Vec<Op> {
    vec![Op::Select(false), Op::Send(vec![opcode])]
}

fn data(bytes: &[u8]) -> Vec<Op> {
    vec![Op::Select(true), Op::Send(bytes.to_vec())]
}

fn sends(ops: &[Op]) -> usize {
    ops.iter().filter(|op| matches!(op, Op::Send(_))).count()
}

#[test]
fn opcodes_match_instruction_table() {
    assert_eq!(Instruction::SWRESET.to_u8(), 0x01);
    assert_eq!(Instruction::SLPOUT.to_u8(), 0x11);
    assert_eq!(Instruction::INVOFF.to_u8(), 0x20);
    assert_eq!(Instruction::INVON.to_u8(), 0x21);
    assert_eq!(Instruction::DISPON.to_u8(), 0x29);
    assert_eq!(Instruction::CASET.to_u8(), 0x2A);
    assert_eq!(Instruction::RASET.to_u8(), 0x2B);
    assert_eq!(Instruction::RAMWR.to_u8(), 0x2C);
    assert_eq!(Instruction::MADCTL.to_u8(), 0x36);
    assert_eq!(Instruction::COLMOD.to_u8(), 0x3A);
    assert_eq!(Instruction::FRMCTR1.to_u8(), 0xB1);
    assert_eq!(Instruction::PWCTR1.to_u8(), 0xC0);
    assert_eq!(Instruction::VMCTR1.to_u8(), 0xC5);
    assert_eq!(Instruction::GMCTRN1.to_u8(), 0xE1);
}

#[test]
fn st7789_opcodes_match_instruction_table() {
    assert_eq!(InstructionST7789::NOP.to_u8(), 0x00);
    assert_eq!(InstructionST7789::SWRESET.to_u8(), 0x01);
    assert_eq!(InstructionST7789::SLPOUT.to_u8(), 0x11);
    assert_eq!(InstructionST7789::DISPON.to_u8(), 0x29);
    assert_eq!(InstructionST7789::CASET.to_u8(), 0x2A);
    assert_eq!(InstructionST7789::RASET.to_u8(), 0x2B);
    assert_eq!(InstructionST7789::RAMWR.to_u8(), 0x2C);
    assert_eq!(InstructionST7789::MADCTL.to_u8(), 0x36);
    assert_eq!(InstructionST7789::COLMOD.to_u8(), 0x3A);
    assert_eq!(InstructionST7789::MADCTL_MY.to_u8(), 0x80);
    assert_eq!(InstructionST7789::MADCTL_MX.to_u8(), 0x40);
    assert_eq!(InstructionST7789::RDID4.to_u8(), 0xDD);
}

#[test]
fn words_are_big_endian() {
    assert_eq!(word_bytes(0x0000), [0x00, 0x00]);
    assert_eq!(word_bytes(0xFFFF), [0xFF, 0xFF]);
    assert_eq!(word_bytes(0x00FF), [0x00, 0xFF]);
    assert_eq!(word_bytes(0xFF00), [0xFF, 0x00]);
    assert_eq!(word_bytes(0x1234), [0x12, 0x34]);
}

#[test]
fn set_pixel_interleaves_selector_and_bytes() {
    let driver = ST7735::new(true, false);
    let (seen, result) = play(driver.set_pixel(0x0102, 0x0304, 0xABCD), None);
    assert_eq!(result, Ok(()));
    let mut expected = Vec::new();
    expected.extend(command(0x2A));
    expected.extend(data(&[0x01, 0x02]));
    expected.extend(data(&[0x01, 0x02]));
    expected.extend(command(0x2B));
    expected.extend(data(&[0x03, 0x04]));
    expected.extend(data(&[0x03, 0x04]));
    expected.extend(command(0x2C));
    expected.extend(data(&[0xAB, 0xCD]));
    assert_eq!(seen, expected);
}

#[test]
fn set_orientation_adds_bgr_bit() {
    let cases = [
        (Orientation::Portrait, 0x00u8),
        (Orientation::Landscape, 0x60),
        (Orientation::PortraitSwapped, 0xC0),
        (Orientation::LandscapeSwapped, 0xA0),
    ];
    for (orientation, control) in cases.iter() {
        assert_eq!(orientation.to_u8(), *control);
        for rgb in [true, false] {
            let driver = ST7735::new(rgb, false);
            let (seen, result) = play(driver.set_orientation(orientation), None);
            assert_eq!(result, Ok(()));
            let byte = if rgb { *control } else { *control | 0x08 };
            let mut expected = command(0x36);
            expected.extend(data(&[byte]));
            assert_eq!(seen, expected);
        }
    }
}

#[test]
fn init_pulses_reset_before_any_transmission() {
    let driver = ST7735::new(true, false);
    let (seen, result) = play(driver.init(), None);
    assert_eq!(result, Ok(()));
    assert_eq!(&seen[..3], &[Op::Reset(true), Op::Reset(false), Op::Reset(true)]);
    assert_eq!(seen[3], Op::Select(false));
    assert_eq!(seen[4], Op::Send(vec![0x01]));
    assert_eq!(seen[5], Op::Pause(50));
    assert_eq!(seen[6], Op::Select(false));
    assert_eq!(seen[7], Op::Send(vec![0x11]));
    assert_eq!(seen[8], Op::Pause(50));
    assert_eq!(seen.last(), Some(&Op::Pause(50)));
}

#[test]
fn hard_reset_is_high_low_high() {
    let driver = ST7735::new(false, false);
    let (seen, result) = play(driver.hard_reset(), None);
    assert_eq!(result, Ok(()));
    assert_eq!(seen, vec![Op::Reset(true), Op::Reset(false), Op::Reset(true)]);
}

#[test]
fn init_full_sequence() {
    let driver = ST7735::new(true, false);
    let (seen, result) = play(driver.init(), None);
    assert_eq!(result, Ok(()));
    let mut expected = vec![Op::Reset(true), Op::Reset(false), Op::Reset(true)];
    expected.extend(command(0x01));
    expected.push(Op::Pause(50));
    expected.extend(command(0x11));
    expected.push(Op::Pause(50));
    expected.extend(command(0xB1));
    expected.extend(data(&[0x01, 0x2C, 0x2D]));
    expected.extend(command(0xB2));
    expected.extend(data(&[0x01, 0x2C, 0x2D]));
    expected.extend(command(0xB3));
    expected.extend(data(&[0x01, 0x2C, 0x2D, 0x01, 0x2C, 0x2D]));
    expected.extend(command(0xB4));
    expected.extend(data(&[0x07]));
    expected.extend(command(0xC0));
    expected.extend(data(&[0xA2, 0x02, 0x84]));
    expected.extend(command(0xC1));
    expected.extend(data(&[0xC5]));
    expected.extend(command(0xC2));
    expected.extend(data(&[0x0A, 0x00]));
    expected.extend(command(0xC3));
    expected.extend(data(&[0x8A, 0x2A]));
    expected.extend(command(0xC4));
    expected.extend(data(&[0x8A, 0xEE]));
    expected.extend(command(0xC5));
    expected.extend(data(&[0x0E]));
    expected.extend(command(0x20));
    expected.extend(command(0x36));
    expected.extend(data(&[0x00]));
    expected.extend(command(0x3A));
    expected.extend(data(&[0x05]));
    expected.extend(command(0x29));
    expected.push(Op::Pause(50));
    assert_eq!(seen, expected);
}

#[test]
fn init_follows_polarity_and_color_order() {
    let driver = ST7735::new(false, true);
    assert!(!driver.rgb());
    assert!(driver.inverted());
    let (seen, result) = play(driver.init(), None);
    assert_eq!(result, Ok(()));
    let tail = &seen[seen.len() - 13..];
    let mut expected = command(0x21);
    expected.extend(command(0x36));
    expected.extend(data(&[0x08]));
    expected.extend(command(0x3A));
    expected.extend(data(&[0x05]));
    expected.extend(command(0x29));
    expected.push(Op::Pause(50));
    assert_eq!(tail, &expected[..]);
}

#[test]
fn init_stops_at_failed_transmission() {
    let driver = ST7735::new(true, true);
    let (all, _) = play(driver.init(), None);
    let total = sends(&all);
    for n in 1..=total {
        let (seen, result) = play(driver.init(), Some(n));
        assert_eq!(result, Err(()));
        assert_eq!(sends(&seen), n);
        assert!(matches!(seen.last(), Some(Op::Send(_))));
        assert_eq!(&seen[..], &all[..seen.len()]);
    }
}

#[test]
fn draw_stops_at_failing_pixel() {
    let driver = ST7735::new(true, false);
    let pixels = [(1u16, 1u16, 0xFFFFu16), (2, 2, 0x0000)];
    let (one_pixel, _) = play(driver.set_pixel(1, 1, 0xFFFF), None);
    let per_pixel = sends(&one_pixel);
    let (seen, result) = play(driver.draw(&pixels), Some(per_pixel + 1));
    assert_eq!(result, Err(()));
    assert_eq!(&seen[..one_pixel.len()], &one_pixel[..]);
    assert_eq!(sends(&seen), per_pixel + 1);
    assert_eq!(seen.len(), one_pixel.len() + 2);
}

#[test]
fn draw_writes_each_pixel_in_order() {
    let driver = ST7735::new(true, false);
    let pixels = [(1u16, 1u16, 0xFFFFu16), (2, 2, 0x0000)];
    let (seen, result) = play(driver.draw(&pixels), None);
    assert_eq!(result, Ok(()));
    let (first, _) = play(driver.set_pixel(1, 1, 0xFFFF), None);
    let (second, _) = play(driver.set_pixel(2, 2, 0x0000), None);
    let mut expected = first;
    expected.extend(second);
    assert_eq!(seen, expected);
}

#[test]
fn draw_of_nothing_succeeds_at_once() {
    let driver = ST7735::new(true, false);
    let ex = driver.draw(&[]);
    assert!(ex.pending().is_none());
    assert_eq!(ex.outcome(), Some(Ok(())));
}

#[test]
fn exchange_ignores_reports_after_failure() {
    let driver = ST7735::new(true, false);
    let mut ex = driver.set_pixel(3, 4, 5);
    assert_eq!(ex.outcome(), None);
    assert_eq!(ex.pending(), Some(&Op::Select(false)));
    ex.advance(true);
    assert_eq!(ex.pending(), Some(&Op::Send(vec![0x2A])));
    ex.advance(false);
    assert_eq!(ex.pending(), None);
    assert_eq!(ex.outcome(), Some(Err(())));
    ex.advance(true);
    assert_eq!(ex.pending(), None);
    assert_eq!(ex.outcome(), Some(Err(())));
}

#[test]
fn exchange_of_given_program() {
    let mut ex = Exchange::new(vec![Op::Pause(7), Op::Reset(false)]);
    assert_eq!(ex.pending(), Some(&Op::Pause(7)));
    ex.advance(true);
    assert_eq!(ex.pending(), Some(&Op::Reset(false)));
    ex.advance(true);
    assert_eq!(ex.pending(), None);
    assert_eq!(ex.outcome(), Some(Ok(())));
}
