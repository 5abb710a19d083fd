use gabriele::database::Db;
use gabriele::german;
use gabriele::impression::Impression;
use gabriele::machine::{Machine, PrintError, PrintingDirection, Settings};
use gabriele::motion::{move_carriage, move_paper};
use gabriele::position::Position;
use gabriele::printing::{Action, Instruction};
use gabriele::resolution::{Resolution, DEFAULT_X_RESOLUTION as X_RES, DEFAULT_Y_RESOLUTION as Y_RES};
use gabriele::symbol::{ActionMapping, AfterSymbolPrinted, Symbol};
use gabriele::times::{LONG_MS, SHORT_MS};

fn german_db() -> Db {
    Db { symbols: german::symbols(), unknown: Db::new().unknown }
}

#[test]
fn printing_test_print_symbol() {
    let symbol = Symbol::new('ü').petal(81);
    let mut pos: Position = Default::default();
    let base_pos: Position = Default::default();

    let action = Action::new(symbol, Default::default(), Default::default());
    let commands = action.instructions(&base_pos, &mut pos).unwrap();
    let pos_diff = pos.diff(&base_pos);

    assert_eq!(pos_diff, (12, 0));
    let mut commands = commands.into_iter();
    assert_eq!(commands.next(), Some(Instruction::bytes(81, 31 + 128)));
    assert_eq!(commands.next(), None);
}

#[test]
fn printing_test_carriage_return_coordinates() {
    let resolution = Resolution::default();
    let symbol = Symbol::cr();
    let base_pos: Position = Default::default();
    let mut pos = base_pos.clone();
    // emulate the motion caused by printing 10 characters: X=+120 units, Y=0
    for _ in 0..10 {
        pos.jump(&pos.step_right(resolution));
    }
    assert_eq!(pos.diff(&base_pos), (120, 0));

    let mut pos: Position = Default::default();
    let base_pos: Position = Default::default();
    let action: Action = Action::new(symbol, Default::default(), Default::default());
    let _ = action.instructions(&base_pos, &mut pos);

    // only the +Y distance to the base point remains
    assert_eq!(pos.diff(&base_pos), (0, 16));
}

#[test]
fn printing_test_carriage_return_instructions() {
    let resolution = Resolution::default();
    let symbol = Symbol::cr();
    let base_pos: Position = Default::default();
    let mut pos = base_pos.clone();
    for _ in 0..10 {
        pos.jump(&pos.step_right(resolution));
    }

    let action = Action::new(symbol, Default::default(), Default::default());
    let mut cmd = action.instructions(&base_pos, &mut pos).unwrap().into_iter();

    assert_eq!(cmd.next(), Some(Instruction::Idle(SHORT_MS)));
    assert_eq!(cmd.next(), Some(Instruction::bytes(0b1110_0000, 120)));
    assert_eq!(cmd.next(), Some(Instruction::Idle(LONG_MS)));
    assert_eq!(cmd.next(), Some(Instruction::Idle(SHORT_MS)));
    assert_eq!(cmd.next(), Some(Instruction::bytes(0b1101_0000, 16)));
    assert_eq!(cmd.next(), Some(Instruction::Idle(LONG_MS)));
    assert_eq!(cmd.next(), None);
}

#[test]
fn leftward_actions_move_the_other_way() {
    let left = Settings { direction: PrintingDirection::Left };
    let base = Position::default();
    let mut pos = Position { x: 120, y: 0 };
    let action = Action::new(Symbol::new('a').petal(94), left, Resolution::default());
    let cmds = action.instructions(&base, &mut pos).unwrap();
    assert_eq!(cmds, vec![Instruction::bytes(94, 31 + 192)]);
    assert_eq!(pos, Position { x: 108, y: 0 });

    let blank = Action::new(Symbol::whitespace(), left, Resolution::default());
    assert!(blank.is_single());
    let cmds = blank.instructions(&base, &mut pos).unwrap();
    assert_eq!(cmds, vec![Instruction::bytes(0x84, 0)]);
    assert_eq!(pos, Position { x: 96, y: 0 });
    assert_eq!(i32::from(PrintingDirection::Left), -1);
    assert_eq!(i32::from(PrintingDirection::Right), 1);
}

#[test]
fn repeated_line_breaks_drop_several_lines() {
    let mut cr = Symbol::cr();
    cr.repeat_times = Some(3);
    let action = Action::new(cr, Settings::default(), Resolution::default());
    assert_eq!(action.multi_factor(), 3);
    assert!(!action.is_single());
    let base = Position { x: 24, y: 0 };
    let mut pos = Position { x: 60, y: 16 };
    let cmds = action.instructions(&base, &mut pos).unwrap();
    assert_eq!(pos, Position { x: 24, y: 64 });
    assert_eq!(
        cmds,
        vec![
            Instruction::Idle(SHORT_MS),
            Instruction::bytes(0xe0, 36),
            Instruction::Idle(LONG_MS),
            Instruction::Idle(SHORT_MS),
            Instruction::bytes(0xd0, 48),
            Instruction::Idle(LONG_MS),
        ]
    );
}

#[test]
fn action_fits_detects_coordinate_overflow() {
    let action = Action::new(Symbol::new('a').petal(94), Settings::default(), Resolution::default());
    let base = Position::default();
    assert!(action.fits(&base, &Position { x: 0, y: 0 }));
    assert!(!action.fits(&base, &Position { x: i32::MAX - 5, y: 0 }));
}

#[test]
fn prints_two_characters() {
    let db = german_db();
    let mut machine = Machine::new();
    let latch = machine.print("AT", &db).unwrap();

    assert_eq!(latch.len(), 2);
    let hit = Impression::default().value() | AfterSymbolPrinted::default().value();
    assert_eq!(hit, 159);
    assert_eq!(latch[0], Instruction::bytes(36, hit));
    assert_eq!(latch[1], Instruction::bytes(37, hit));

    let expected_position = Position { x: X_RES * 2, y: 0 };
    assert_eq!(machine.current_position(), expected_position);
}

#[test]
fn prints_special_character() {
    let db = german_db();
    let mut machine = Machine::new();
    let latch = machine.print("à", &db).unwrap();

    assert_eq!(latch.len(), 2);
    let first_hit = Impression::default().value() | AfterSymbolPrinted::HoldOn.value();
    let second_hit = Impression::Mild.value() | AfterSymbolPrinted::MoveRight.value();
    assert_eq!(latch[0], Instruction::bytes(94, first_hit));
    assert_eq!(latch[1], Instruction::bytes(72, second_hit));
    assert_eq!(latch[0], Instruction::bytes(94, 31));
    assert_eq!(latch[1], Instruction::bytes(72, 143));

    let expected_position = Position { x: X_RES * 1, y: 0 };
    assert_eq!(machine.current_position(), expected_position);
}

#[test]
fn prints_character_with_a_newline() {
    let db = german_db();
    let mut machine = Machine::new();
    let latch = machine.print("A\n", &db).unwrap();

    // 1 printing instruction plus two wrapped motions
    assert_eq!(latch.len(), 7);
    let hit = Impression::default().value() | AfterSymbolPrinted::MoveRight.value();
    let carriage_motion = move_carriage(-1 * X_RES).unwrap();
    let roll_motion = move_paper(1 * Y_RES).unwrap();

    assert_eq!(latch[0], Instruction::bytes(36, hit));
    assert_eq!(&latch[1..4], &carriage_motion[..]);
    assert_eq!(&latch[4..7], &roll_motion[..]);
    assert_eq!(latch[2], Instruction::bytes(0xe0, 12));
    assert_eq!(latch[5], Instruction::bytes(0xd0, 16));
    assert_eq!(machine.current_position(), Position { x: 0, y: 16 });
}

#[test]
fn four_spaces_become_one_jump() {
    let db = german_db();
    let symbols = db.printables("    ");
    assert_eq!(symbols.len(), 1);
    assert_eq!(symbols[0].act, ActionMapping::Whitespace);
    assert_eq!(symbols[0].repeat_times, Some(4));

    let mut machine = Machine::new();
    let latch = machine.print("    ", &db).unwrap();
    assert_eq!(
        latch,
        vec![
            Instruction::Idle(SHORT_MS),
            Instruction::bytes(0xc0, 48),
            Instruction::Idle(LONG_MS),
            Instruction::Empty,
        ]
    );
    assert_eq!(machine.current_position(), Position { x: 48, y: 0 });
}

#[test]
fn single_space_uses_the_space_command() {
    let db = german_db();
    let mut machine = Machine::new();
    let latch = machine.print("a b", &db).unwrap();
    assert_eq!(
        latch,
        vec![Instruction::bytes(94, 159), Instruction::bytes(0x83, 0), Instruction::bytes(98, 159)]
    );
    assert_eq!(machine.current_position(), Position { x: 36, y: 0 });
}

#[test]
fn repeated_letters_strike_each_copy() {
    let db = german_db();
    let mut machine = Machine::new();
    let latch = machine.print("aaa", &db).unwrap();
    assert_eq!(latch, vec![Instruction::bytes(94, 159); 3]);
    assert_eq!(machine.current_position(), Position { x: 36, y: 0 });
}

#[test]
fn unknown_characters_print_the_fallback() {
    let db = german_db();
    let mut machine = Machine::new();
    let latch = machine.print("\u{263a}", &db).unwrap();
    assert_eq!(latch, vec![Instruction::bytes(41, 159)]);
    assert_eq!(db.get('\u{263a}', 1), Db::new().unknown);
}

#[test]
fn too_long_jump_is_an_error() {
    let db = german_db();
    let mut machine = Machine::new();
    let blanks = " ".repeat(400);
    assert_eq!(machine.print(&blanks, &db), Err(PrintError::StepsOutOfRange));
}

#[test]
fn coordinate_overflow_is_an_error() {
    let db = german_db();
    let mut machine = Machine::new();
    machine.pos = Position { x: i32::MAX - 5, y: 0 };
    assert_eq!(machine.print("A", &db), Err(PrintError::PositionOutOfRange));
}

#[test]
fn offset_moves_the_carriage_only() {
    let mut machine = Machine::new();
    let cmds = machine.offset(4 * 12).unwrap();
    assert_eq!(
        cmds,
        vec![Instruction::Idle(SHORT_MS), Instruction::bytes(0xc0, 48), Instruction::Idle(LONG_MS)]
    );
    assert_eq!(machine.current_position(), Position { x: 0, y: 0 });
}

#[test]
fn starts_test_application() {
    let mut machine = Machine::new();
    assert_eq!(machine.send_empty_instruction(), vec![Instruction::Empty]);
    assert_eq!(machine.shutdown(), vec![Instruction::Shutdown]);
}

#[test]
fn german_test_string_to_iterator_over_symbols() {
    let db = german_db();

    let input = "Wombat";
    let mut first_iterator = db.printables(input).into_iter();
    let mut second_iterator = db.printables(input).into_iter();

    let sym_w_upper = Symbol::new('W').petal(50).strong();
    let sym_o = Symbol::new('o').petal(99);
    let sym_m = Symbol::new('m').petal(6);

    let value = first_iterator.next();
    assert_eq!(value, Some(sym_w_upper.clone()));

    let value = first_iterator.next();
    assert_eq!(value, Some(sym_o));

    let value = second_iterator.next();
    assert_eq!(value, Some(sym_w_upper));

    let value = first_iterator.next();
    assert_eq!(value, Some(sym_m));
}

#[test]
fn runs_of_equal_characters_are_coalesced() {
    let db = german_db();
    let symbols = db.printables("aab\n\n\nb");
    let chars: Vec<(char, Option<usize>)> = symbols.iter().map(|s| (s.character, s.repeat_times)).collect();
    assert_eq!(chars, vec![('a', Some(2)), ('b', None), ('\n', Some(3)), ('b', None)]);
    assert!(db.printables("").is_empty());
}

#[test]
fn german_wheel_covers_every_petal() {
    let symbols = german::symbols();
    assert_eq!(symbols.len(), 112);
    for (i, s) in symbols.iter().take(100).enumerate() {
        assert_eq!(s.signs.len(), 1);
        assert_eq!(s.signs[0].idx as usize, i + 1);
    }
    let db = german_db();
    assert_eq!(db.get('à', 1), Symbol::new('à').petal(94).grave());
    assert_eq!(db.get('é', 1), Symbol::new('é').petal(93).acute());
    assert_eq!(db.get('.', 1), Symbol::new('.').petal(1).mild());
    let mut two = Symbol::new('A').petal(36);
    two.repeat_times = Some(2);
    assert_eq!(db.get('A', 2), two);
}
