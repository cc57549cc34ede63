use befunge::{CodeGrid, CommandRegistry, Direction, IPState, Reading};

fn spaces() -> CodeGrid {
    CodeGrid::new(vec![vec![' '; 10]; 10], 10, 10)
}

#[test]
fn test_command_registry_add_command() {
    let registry = CommandRegistry::new();
    let add_command = registry.get_command('+');
    assert!(add_command.is_some(), "AddCommand should be registered for '+'");
}

#[test]
fn test_command_registry_unknown_command() {
    let registry = CommandRegistry::new();
    let unknown_command = registry.get_command('x');
    assert!(unknown_command.is_none(), "There should be no command registered for 'x'");
}

#[test]
fn test_command_registry_digit_command() {
    let registry = CommandRegistry::new();
    let digit_command = registry.get_command('3');
    assert!(digit_command.is_some(), "DigitCommand should be registered for '3'");
}

#[test]
fn test_command_execution_add_command() {
    let registry = CommandRegistry::new();
    let command = registry.get_command('+').unwrap();
    let mut ip = IPState::new(0, 0, Direction::Right);
    let mut grid = spaces();
    ip.stk.push(2);
    ip.stk.push(3);
    command.execute(&mut ip, &mut grid, Reading::Nothing);
    assert_eq!(ip.stk.pop().unwrap(), 5, "2 + 3 should equal 5");
}

#[test]
fn test_command_execution_horizontal_if_command_zero() {
    let registry = CommandRegistry::new();
    let command = registry.get_command('_').unwrap();
    let mut ip = IPState::new(0, 0, Direction::Right);
    let mut grid = spaces();
    ip.stk.push(0);
    command.execute(&mut ip, &mut grid, Reading::Nothing);
    assert_eq!(ip.direction, Direction::Right, "IP should move right for 0");
}

#[test]
fn test_command_execution_horizontal_if_command_non_zero() {
    let registry = CommandRegistry::new();
    let command = registry.get_command('_').unwrap();
    let mut ip = IPState::new(0, 0, Direction::Right);
    let mut grid = spaces();
    ip.stk.push(1);
    command.execute(&mut ip, &mut grid, Reading::Nothing);
    assert_eq!(ip.direction, Direction::Left, "IP should move left for non-zero");
}

#[test]
fn test_duplicate_top_command() {
    let registry = CommandRegistry::new();
    let command = registry.get_command(':').unwrap();
    let mut ip = IPState::new(0, 0, Direction::Right);
    let mut grid = spaces();
    ip.stk.push(42);
    command.execute(&mut ip, &mut grid, Reading::Nothing);
    assert_eq!(ip.stk.pop().unwrap(), 42);
    assert_eq!(ip.stk.pop().unwrap(), 42);
}

#[test]
fn test_swap_command() {
    let registry = CommandRegistry::new();
    let command = registry.get_command('\\').unwrap();
    let mut ip = IPState::new(0, 0, Direction::Right);
    let mut grid = spaces();
    ip.stk.push(1);
    ip.stk.push(2);
    command.execute(&mut ip, &mut grid, Reading::Nothing);
    assert_eq!(ip.stk.pop().unwrap(), 1);
    assert_eq!(ip.stk.pop().unwrap(), 2);
}

#[test]
fn test_logical_not_command() {
    let registry = CommandRegistry::new();
    let command = registry.get_command('!').unwrap();
    let mut ip = IPState::new(0, 0, Direction::Right);
    let mut grid = spaces();
    ip.stk.push(0);
    command.execute(&mut ip, &mut grid, Reading::Nothing);
    assert_eq!(ip.stk.pop().unwrap(), 1, "0 should become 1");
    ip.stk.push(42);
    command.execute(&mut ip, &mut grid, Reading::Nothing);
    assert_eq!(ip.stk.pop().unwrap(), 0, "Non-zero should become 0");
}

#[test]
fn test_put_command() {
    let registry = CommandRegistry::new();
    let command = registry.get_command('p').unwrap();
    let mut ip = IPState::new(0, 0, Direction::Right);
    let mut grid = spaces();
    ip.stk.push('A' as usize);
    ip.stk.push(1);
    ip.stk.push(2);
    command.execute(&mut ip, &mut grid, Reading::Nothing);
    let value = grid.get_value(1, 2).unwrap();
    assert_eq!(value, 'A', "The value at (1, 2) should be 'A'");
}

#[test]
fn test_get_command() {
    let registry = CommandRegistry::new();
    let command = registry.get_command('g').unwrap();
    let mut ip = IPState::new(0, 0, Direction::Right);
    let mut grid = spaces();
    grid.set_value(3, 4, 'B').unwrap();
    ip.stk.push(3);
    ip.stk.push(4);
    command.execute(&mut ip, &mut grid, Reading::Nothing);
    assert_eq!(
        ip.stk.pop().unwrap(),
        'B' as usize,
        "The value at (3, 4) should be 'B' pushed onto the stack"
    );
}

#[test]
fn test_get_command_with_grid() {
    let registry = CommandRegistry::new();
    let command = registry.get_command('g').unwrap();
    let mut ip = IPState::new(0, 0, Direction::Right);
    let mut grid = CodeGrid::new(vec![vec![' ', ' ', ' '], vec![' ', ' ', ' '], vec![' ', ' ', 'B']], 3, 3);
    ip.stk.push(2);
    ip.stk.push(2);
    command.execute(&mut ip, &mut grid, Reading::Nothing);
    assert_eq!(ip.stk.pop().unwrap(), 'B' as usize, "Value at (2, 2) should be 'B'");
}

#[test]
fn test_subtract_command() {
    let registry = CommandRegistry::new();
    let command = registry.get_command('-').unwrap();
    let mut ip = IPState::new(0, 0, Direction::Right);
    let mut grid = spaces();
    ip.stk.push(5);
    ip.stk.push(3);
    command.execute(&mut ip, &mut grid, Reading::Nothing);
    assert_eq!(ip.stk.pop().unwrap(), 2, "5 - 3 should equal 2");
}

#[test]
fn test_divide_command() {
    let registry = CommandRegistry::new();
    let command = registry.get_command('/').unwrap();
    let mut ip = IPState::new(0, 0, Direction::Right);
    let mut grid = spaces();
    ip.stk.push(10);
    ip.stk.push(2);
    command.execute(&mut ip, &mut grid, Reading::Nothing);
    assert_eq!(ip.stk.pop().unwrap(), 5, "10 / 2 should equal 5");
}

#[test]
fn test_divide_command_by_zero() {
    let registry = CommandRegistry::new();
    let command = registry.get_command('/').unwrap();
    let mut ip = IPState::new(0, 0, Direction::Right);
    let mut grid = spaces();
    ip.stk.push(10);
    ip.stk.push(0);
    command.execute(&mut ip, &mut grid, Reading::Nothing);
    assert_eq!(ip.stk.pop().unwrap(), 0, "10 / 0 should fallback to 0");
}

#[test]
fn test_duplicate_top_command_with_empty_stack() {
    let registry = CommandRegistry::new();
    let command = registry.get_command(':').unwrap();
    let mut ip = IPState::new(0, 0, Direction::Right);
    let mut grid = spaces();
    command.execute(&mut ip, &mut grid, Reading::Nothing);
    assert_eq!(
        ip.stk.pop().unwrap(),
        0,
        "With an empty stack, DuplicateTopCommand should push 0"
    );
}

#[test]
fn test_duplicate_top_command_with_non_empty_stack() {
    let registry = CommandRegistry::new();
    let command = registry.get_command(':').unwrap();
    let mut ip = IPState::new(0, 0, Direction::Right);
    let mut grid = spaces();
    ip.stk.push(42);
    command.execute(&mut ip, &mut grid, Reading::Nothing);
    assert_eq!(ip.stk.pop().unwrap(), 42, "The top value should be duplicated");
    assert_eq!(
        ip.stk.pop().unwrap(),
        42,
        "The original value should still be present after duplication"
    );
}

#[test]
fn test_swap_command_with_empty_stack() {
    let registry = CommandRegistry::new();
    let command = registry.get_command('\\').unwrap();
    let mut ip = IPState::new(0, 0, Direction::Right);
    let mut grid = spaces();
    command.execute(&mut ip, &mut grid, Reading::Nothing);
    assert_eq!(ip.stk.pop().unwrap(), 0, "With an empty stack, SwapCommand should push 0");
    assert_eq!(
        ip.stk.pop().unwrap(),
        0,
        "With an empty stack, SwapCommand should push another 0"
    );
}

#[test]
fn test_swap_command_with_one_element_stack() {
    let registry = CommandRegistry::new();
    let command = registry.get_command('\\').unwrap();
    let mut ip = IPState::new(0, 0, Direction::Right);
    let mut grid = spaces();
    ip.stk.push(42);
    command.execute(&mut ip, &mut grid, Reading::Nothing);
    assert_eq!(ip.stk.pop().unwrap(), 0, "[42] > [42 0] > 0");
    assert_eq!(ip.stk.pop().unwrap(), 42, "[42 0] > 42");
}

#[test]
fn test_swap_command_with_two_elements() {
    let registry = CommandRegistry::new();
    let command = registry.get_command('\\').unwrap();
    let mut ip = IPState::new(0, 0, Direction::Right);
    let mut grid = spaces();
    ip.stk.push(1);
    ip.stk.push(2);
    command.execute(&mut ip, &mut grid, Reading::Nothing);
    assert_eq!(ip.stk.pop().unwrap(), 1, "The top value should be 1");
    assert_eq!(ip.stk.pop().unwrap(), 2, "The next value should be 2");
}

#[test]
fn test_greater_than_command_with_greater_value() {
    let registry = CommandRegistry::new();
    let command = registry.get_command('`').unwrap();
    let mut ip = IPState::new(0, 0, Direction::Right);
    let mut grid = spaces();
    ip.stk.push(5);
    ip.stk.push(3);
    command.execute(&mut ip, &mut grid, Reading::Nothing);
    assert_eq!(ip.stk.pop().unwrap(), 1, "5 > 3, so the result should be 1");
}

#[test]
fn test_greater_than_command_with_equal_value() {
    let registry = CommandRegistry::new();
    let command = registry.get_command('`').unwrap();
    let mut ip = IPState::new(0, 0, Direction::Right);
    let mut grid = spaces();
    ip.stk.push(3);
    ip.stk.push(3);
    command.execute(&mut ip, &mut grid, Reading::Nothing);
    assert_eq!(
        ip.stk.pop().unwrap(),
        0,
        "3 is not greater than 3, so the result should be 0"
    );
}

#[test]
fn test_greater_than_command_with_lesser_value() {
    let registry = CommandRegistry::new();
    let command = registry.get_command('`').unwrap();
    let mut ip = IPState::new(0, 0, Direction::Right);
    let mut grid = spaces();
    ip.stk.push(2);
    ip.stk.push(3);
    command.execute(&mut ip, &mut grid, Reading::Nothing);
    assert_eq!(ip.stk.pop().unwrap(), 0, "2 < 3, so the result should be 0");
}

#[test]
fn test_greater_than_command_with_empty_stack() {
    let registry = CommandRegistry::new();
    let command = registry.get_command('`').unwrap();
    let mut ip = IPState::new(0, 0, Direction::Right);
    let mut grid = spaces();
    command.execute(&mut ip, &mut grid, Reading::Nothing);
    assert_eq!(ip.stk.pop().unwrap(), 0, "With an empty stack, the result should be 0");
}

#[test]
fn test_greater_than_command_with_one_element_stack() {
    let registry = CommandRegistry::new();
    let command = registry.get_command('`').unwrap();
    let mut ip = IPState::new(0, 0, Direction::Right);
    let mut grid = spaces();
    ip.stk.push(5);
    command.execute(&mut ip, &mut grid, Reading::Nothing);
    assert_eq!(
        ip.stk.pop().unwrap(),
        0,
        "With a single-element stack, the result should be 0"
    );
}

#[test]
fn test_read_number_command() {
    let registry = CommandRegistry::new();
    let command = registry.get_command('&').unwrap();
    let mut ip = IPState::new(0, 0, Direction::Right);
    let mut grid = spaces();
    command.execute(&mut ip, &mut grid, Reading::Number(Some(42)));
    assert_eq!(
        ip.stk.pop().unwrap(),
        42,
        "ReadNumberCommand should push 42 onto the stack"
    );
}

#[test]
fn test_read_character_command() {
    let registry = CommandRegistry::new();
    let command = registry.get_command('~').unwrap();
    let mut ip = IPState::new(0, 0, Direction::Right);
    let mut grid = spaces();
    command.execute(&mut ip, &mut grid, Reading::Character(Some('A')));
    assert_eq!(
        ip.stk.pop().unwrap(),
        'A' as usize,
        "ReadCharacterCommand should push ASCII value of 'A' onto the stack"
    );
}
