use gabriele::impression::Impression;
use gabriele::machine::PrintingDirection;
use gabriele::printing::Instruction;
use gabriele::sign::Sign;
use gabriele::symbol::{ActionMapping, AfterSymbolPrinted, Symbol};

#[test]
fn impression_test_strong_impression() {
    assert_eq!(Impression::Strong.value(), 47)
}

#[test]
fn impression_test_normal_impression() {
    assert_eq!(Impression::Normal.value(), 31)
}

#[test]
fn impression_test_strongest_impression() {
    assert_eq!(Impression::Strongest.value(), 63)
}

#[test]
fn impression_test_custom_impression() {
    assert_eq!(Impression::Custom(800).value(), 50)
}

#[test]
fn daisy_test_strong_impression() {
    assert_eq!(Impression::Strong.value(), 47)
}

#[test]
fn daisy_test_normal_impression() {
    assert_eq!(Impression::Normal.value(), 31)
}

#[test]
fn daisy_test_strongest_impression() {
    assert_eq!(Impression::Strongest.value(), 63)
}

#[test]
fn daisy_test_custom_impression() {
    assert_eq!(Impression::Custom(800).value(), 50)
}

#[test]
fn mod_test_strong_impression() {
    assert_eq!(Impression::Strong.value(), 47)
}

#[test]
fn mod_test_normal_impression() {
    assert_eq!(Impression::Normal.value(), 31)
}

#[test]
fn mod_test_strongest_impression() {
    assert_eq!(Impression::Strongest.value(), 63)
}

#[test]
fn mod_test_custom_impression() {
    assert_eq!(Impression::Custom(800).value(), 50)
}

#[test]
fn mild_impression_and_custom_bounds() {
    assert_eq!(Impression::Mild.value(), 15);
    assert_eq!(Impression::Custom(0).value(), 0);
    assert_eq!(Impression::Custom(1000).value(), 63);
    assert_eq!(Impression::Custom(u16::MAX).value(), 63);
    assert_eq!(Impression::default(), Impression::Normal);
}

#[test]
fn every_impression_level_fits_six_bits() {
    for r in 0..=u16::MAX {
        assert!(Impression::Custom(r).value() <= 63);
    }
}

fn first(symbol: &Symbol, dir: PrintingDirection) -> Vec<Instruction> {
    symbol.instructions(dir)
}

#[test]
fn symbol_test_instructions_with_strong_impression() {
    let symbol = Symbol::new('ü').petal(81).strong();
    let mut result = first(&symbol, Default::default()).into_iter();
    assert_eq!(result.next(), Some(Instruction::bytes(81, 47 + 128)));
    assert_eq!(result.next(), None);
}

#[test]
fn symbol_test_instructions_with_hold_after_printed() {
    let symbol = Symbol::new('ü').petal(81).hold();
    let mut result = first(&symbol, Default::default()).into_iter();
    assert_eq!(result.next(), Some(Instruction::bytes(81, 31 + 0)));
    assert_eq!(result.next(), None);
}

#[test]
fn symbol_test_instructions_with_left_direction() {
    let symbol = Symbol::new('ü').petal(81).left();
    let mut result = first(&symbol, Default::default()).into_iter();
    assert_eq!(result.next(), Some(Instruction::bytes(81, 31 + 128 + 64)));
    assert_eq!(result.next(), None);
}

#[test]
fn symbol_test_instructions_with_acute_marker() {
    let symbol = Symbol::new('à').petal(94).grave();
    let mut result = first(&symbol, Default::default()).into_iter();
    // 31 for Impression normal + 0 for Direction (hold)
    assert_eq!(result.next(), Some(Instruction::bytes(94, 31)));
    // 15 for Impression Mild + 128 for Direction normal
    assert_eq!(result.next(), Some(Instruction::bytes(72, 15 + 128)));
    assert_eq!(result.next(), None);
}

#[test]
fn daisy_test_instructions_with_strong_impression() {
    let symbol = Symbol::new('ü').petal(81).strong();
    let mut result = first(&symbol, Default::default()).into_iter();
    assert_eq!(result.next(), Some(Instruction::bytes(81, 47 + 128)));
    assert_eq!(result.next(), None);
}

#[test]
fn daisy_test_instructions_with_hold_after_printed() {
    let symbol = Symbol::new('ü').petal(81).hold();
    let mut result = first(&symbol, Default::default()).into_iter();
    assert_eq!(result.next(), Some(Instruction::bytes(81, 31 + 0)));
    assert_eq!(result.next(), None);
}

#[test]
fn daisy_test_instructions_with_left_direction() {
    let symbol = Symbol::new('ü').petal(81).left();
    let mut result = first(&symbol, Default::default()).into_iter();
    assert_eq!(result.next(), Some(Instruction::bytes(81, 31 + 128 + 64)));
    assert_eq!(result.next(), None);
}

#[test]
fn daisy_test_instructions_with_acute_marker() {
    let symbol = Symbol::new('à').petal(94).grave();
    let mut result = first(&symbol, Default::default()).into_iter();
    assert_eq!(result.next(), Some(Instruction::bytes(94, 31)));
    assert_eq!(result.next(), Some(Instruction::bytes(72, 15 + 128)));
    assert_eq!(result.next(), None);
}

#[test]
fn mod_test_instructions_with_strong_impression() {
    let symbol = Symbol::new('ü').petal(81).strong();
    let mut result = first(&symbol, Default::default()).into_iter();
    assert_eq!(result.next(), Some(Instruction::bytes(81, 47 + 128)));
    assert_eq!(result.next(), None);
}

#[test]
fn mod_test_instructions_with_hold_after_printed() {
    let symbol = Symbol::new('ü').petal(81).hold();
    let mut result = first(&symbol, Default::default()).into_iter();
    assert_eq!(result.next(), Some(Instruction::bytes(81, 31 + 0)));
    assert_eq!(result.next(), None);
}

#[test]
fn mod_test_instructions_with_left_direction() {
    let symbol = Symbol::new('ü').petal(81).left();
    let mut result = first(&symbol, Default::default()).into_iter();
    assert_eq!(result.next(), Some(Instruction::bytes(81, 31 + 128 + 64)));
    assert_eq!(result.next(), None);
}

#[test]
fn acute_accent_uses_its_own_petal() {
    let symbol = Symbol::new('é').petal(93).acute();
    assert_eq!(
        symbol.instructions(PrintingDirection::Right),
        vec![Instruction::bytes(93, 31), Instruction::bytes(14, 15 + 128)]
    );
    assert_eq!(symbol.x_positions_increment(), 1);
}

#[test]
fn leftward_printing_inverts_the_motion_bits() {
    let symbol = Symbol::new('a').petal(94);
    assert_eq!(
        symbol.instructions(PrintingDirection::Left),
        vec![Instruction::bytes(94, 31 + 128 + 64)]
    );
    let held = Symbol::new('a').petal(94).hold();
    assert_eq!(held.instructions(PrintingDirection::Left), vec![Instruction::bytes(94, 31)]);
}

#[test]
fn repeated_composite_strikes_every_sign_each_time() {
    let mut symbol = Symbol::new('à').petal(94).grave();
    symbol.repeat_times = Some(3);
    let cmds = symbol.instructions(PrintingDirection::Right);
    assert_eq!(cmds.len(), 6);
    for pair in cmds.chunks(2) {
        assert_eq!(pair, &[Instruction::bytes(94, 31), Instruction::bytes(72, 143)]);
    }
    // one column per copy, not two
    assert_eq!(symbol.x_positions_increment(), 3);
}

#[test]
fn column_increment_sums_the_sign_shifts() {
    let right = Symbol::new('a').petal(94).petal(95);
    assert_eq!(right.x_positions_increment(), 2);
    let left = Symbol::new('a').petal(94).petal(95).left();
    assert_eq!(left.x_positions_increment(), -2);
    let held = Symbol::new('a').petal(94).hold();
    assert_eq!(held.x_positions_increment(), 0);
    let mut mixed = Symbol::new('a').petal(94).grave();
    mixed.repeat_times = Some(4);
    assert_eq!(mixed.x_positions_increment(), 4);
    assert_eq!(Symbol::whitespace().x_positions_increment(), 0);
}

#[test]
fn invert_twice_is_identity() {
    for a in [AfterSymbolPrinted::MoveRight, AfterSymbolPrinted::MoveLeft, AfterSymbolPrinted::HoldOn] {
        assert_eq!(a.invert().invert(), a);
        assert_eq!(a.with_direction(PrintingDirection::Right), a);
        assert_eq!(a.with_direction(PrintingDirection::Left), a.invert());
    }
    assert_eq!(AfterSymbolPrinted::MoveRight.invert(), AfterSymbolPrinted::MoveLeft);
    assert_eq!(AfterSymbolPrinted::HoldOn.invert(), AfterSymbolPrinted::HoldOn);
    assert_eq!(AfterSymbolPrinted::MoveRight.value(), 0b1000_0000);
    assert_eq!(AfterSymbolPrinted::MoveLeft.value(), 0b1100_0000);
    assert_eq!(AfterSymbolPrinted::HoldOn.value(), 0);
}

#[test]
fn strike_byte_decodes_to_its_impression() {
    let imps = [
        Impression::Normal,
        Impression::Strong,
        Impression::Mild,
        Impression::Strongest,
        Impression::Custom(0),
        Impression::Custom(333),
    ];
    let afters = [AfterSymbolPrinted::MoveRight, AfterSymbolPrinted::MoveLeft, AfterSymbolPrinted::HoldOn];
    for imp in imps {
        for after in afters {
            let sign = Sign { idx: 7, imp, after };
            match sign.build_instruction(PrintingDirection::Right) {
                Instruction::SendBytes([b1, b2]) => {
                    assert_eq!(b1, 7);
                    assert_eq!(b2 & 0b0011_1111, imp.value());
                    assert_eq!(b2 & 0b1100_0000, after.value());
                }
                other => panic!("unexpected {:?}", other),
            }
        }
    }
}

#[test]
fn builders_set_every_sign() {
    let s = Symbol::new('x').petal(78).petal(79).mild();
    assert!(s.signs.iter().all(|g| g.imp == Impression::Mild));
    let s = s.after_printed(AfterSymbolPrinted::HoldOn);
    assert!(s.signs.iter().all(|g| g.after == AfterSymbolPrinted::HoldOn));
    let s = s.imp(Impression::Custom(900));
    assert!(s.signs.iter().all(|g| g.imp == Impression::Custom(900)));
    assert_eq!(s.character, 'x');
    assert_eq!(s.act, ActionMapping::Print);
    assert_eq!(Symbol::whitespace().act, ActionMapping::Whitespace);
    assert_eq!(Symbol::cr().act, ActionMapping::CarriageReturn);
    assert!(Symbol::cr().signs.is_empty());
    assert_eq!(Sign::default(), Sign { idx: 0, imp: Impression::Normal, after: AfterSymbolPrinted::MoveRight });
}
