use befunge::CodeGrid;

fn parse(text: &str) -> CodeGrid {
    CodeGrid::parse(&text.chars().collect())
}

#[test]
fn test_load_program_success() {
    let program = parse(">1+2@ ");
    assert_eq!(program.code_height, 1, "Code height should be 1");
    assert_eq!(program.code_width, 6, "Code width should be 6");
    assert_eq!(program.grid.len(), 1, "Grid should have 1 row");
    assert_eq!(
        program.grid[0],
        vec!['>', '1', '+', '2', '@', ' '],
        "Grid row should match"
    );
}

#[test]
fn test_load_program_empty_file() {
    let program = parse("");
    assert_eq!(program.code_height, 0, "Code height should be at least 0");
    assert_eq!(program.code_width, 0, "Code width should be at least 0");
    assert_eq!(program.grid.len(), 1, "Grid should have 1 row");
    assert_eq!(program.grid[0], vec![' '], "Grid row should contain a single space");
}

#[test]
fn test_load_program_with_different_line_lengths() {
    let program = parse(">1+\n2@ ");
    assert_eq!(program.code_height, 2, "Code height should be 2");
    assert_eq!(program.code_width, 3, "Code width should be 3 (max line length)");
    assert_eq!(program.grid.len(), 2, "Grid should have 2 rows");
    assert_eq!(program.grid[0], vec!['>', '1', '+'], "First row should match");
    assert_eq!(program.grid[1], vec!['2', '@', ' '], "Second row should be padded with space");
}

#[test]
fn parse_drops_carriage_returns_and_final_line_ending() {
    let program = parse("ab\r\nc\n");
    assert_eq!(program.code_height, 2);
    assert_eq!(program.code_width, 2);
    assert_eq!(program.grid, vec![vec!['a', 'b'], vec!['c', ' ']]);
}

#[test]
fn parse_keeps_empty_lines_and_a_lone_trailing_carriage_return() {
    let program = parse("a\n\nb\r");
    assert_eq!(program.code_height, 3);
    assert_eq!(program.code_width, 2);
    assert_eq!(
        program.grid,
        vec![vec!['a', ' '], vec![' ', ' '], vec!['b', '\r']]
    );
}

#[test]
fn get_and_set_outside_the_stored_cells_fail() {
    let mut program = parse("ab\ncd");
    assert_eq!(program.get_value(1, 1), Ok('d'));
    assert_eq!(
        program.get_value(2, 0),
        Err(befunge::InterpreterError::OutOfBounds(2, 0))
    );
    assert_eq!(
        program.set_value(0, 2, 'x'),
        Err(befunge::InterpreterError::OutOfBounds(0, 2))
    );
    assert_eq!(program.set_value(0, 1, 'x'), Ok(()));
    assert_eq!(program.grid, vec![vec!['a', 'b'], vec!['x', 'd']]);
}

#[test]
fn seed_scan_turns_arrows_into_pointers_in_row_major_order() {
    let mut program = parse(" \u{2193} \n\u{2192} \u{2190}\n \u{2191} ");
    let ips = befunge::get_initial_ips(&mut program);
    let seen: Vec<(usize, usize, befunge::Direction)> =
        ips.iter().map(|ip| (ip.ip_x, ip.ip_y, ip.direction)).collect();
    assert_eq!(
        seen,
        vec![
            (1, 0, befunge::Direction::Down),
            (0, 1, befunge::Direction::Right),
            (2, 1, befunge::Direction::Left),
            (1, 2, befunge::Direction::Up),
        ]
    );
    assert!(program.grid.iter().all(|row| row.iter().all(|c| *c == ' ')));
    assert!(ips.iter().all(|ip| ip.stk.is_empty() && !ip.terminated && !ip.string_mode_active));
}

#[test]
fn seed_scan_without_arrows_starts_at_the_origin_heading_right() {
    let mut program = parse("12+.@");
    let ips = befunge::get_initial_ips(&mut program);
    assert_eq!(ips.len(), 1);
    assert_eq!((ips[0].ip_x, ips[0].ip_y, ips[0].direction), (0, 0, befunge::Direction::Right));
    assert_eq!(program.grid[0], vec!['1', '2', '+', '.', '@']);
}
