use line_reader::{Color, KeyAction, KeyCode, KeyEvent, Modifiers, Output, Phase, Session};

fn ch(c: char) -> KeyEvent {
    KeyEvent::plain(KeyCode::Char(c))
}

fn enter() -> KeyEvent {
    KeyEvent::plain(KeyCode::Enter)
}

fn backspace() -> KeyEvent {
    KeyEvent::plain(KeyCode::Backspace)
}

fn ctrl_c() -> KeyEvent {
    KeyEvent { code: KeyCode::Char('c'), modifiers: Modifiers::control() }
}

fn typed(text: &str) -> Vec<KeyEvent> {
    text.chars().map(ch).collect()
}

fn print(text: &str) -> Output {
    Output::Print(text.to_string())
}

fn prompt() -> Vec<Output> {
    vec![print("Enter your input: "), Output::Flush]
}

fn echo(c: char) -> Vec<Output> {
    vec![Output::Foreground(Color::Blue), Output::Print(c.to_string()), Output::Flush]
}

fn erased() -> Vec<Output> {
    vec![print("\u{8} \u{8}"), Output::Flush]
}

fn piped_echo(text: &str) -> Vec<Output> {
    vec![
        Output::Foreground(Color::Blue),
        print(text),
        Output::Flush,
        Output::Foreground(Color::Reset),
    ]
}

fn confirmed(line: &str) -> Vec<Output> {
    vec![
        Output::Foreground(Color::Green),
        Output::Print(format!("\r\nYou entered: {}\r\n", line)),
        Output::Foreground(Color::Reset),
        Output::Flush,
    ]
}

fn typing(line: &str) -> Session {
    Session { piped_input: String::new(), user_input: line.to_string(), phase: Phase::Typing }
}

#[test]
fn new_session_holds_the_piped_input_and_owes_a_prompt() {
    let s = Session::new("abc".to_string());
    assert_eq!(s.piped_input, "abc");
    assert_eq!(s.user_input, "");
    assert_eq!(s.phase, Phase::Prompting);
    assert!(!s.is_finished());
}

#[test]
fn display_prompt_adds_the_prompt_and_keeps_what_was_there() {
    let s = Session::new(String::new());
    let mut out = vec![Output::Foreground(Color::Reset)];
    s.display_prompt(&mut out);
    assert_eq!(
        out,
        vec![Output::Foreground(Color::Reset), print("Enter your input: "), Output::Flush]
    );
}

#[test]
fn check_piped_input_moves_the_input_and_echoes_it_in_blue() {
    let mut s = Session::new("hello\n".to_string());
    let mut out = Vec::new();
    s.check_piped_input(&mut out);
    assert_eq!(
        out,
        vec![
            Output::Foreground(Color::Blue),
            print("hello\n"),
            Output::Flush,
            Output::Foreground(Color::Reset),
        ]
    );
    assert_eq!(s.user_input, "hello\n");
    assert_eq!(s.piped_input, "");
    assert_eq!(s.phase, Phase::Prompting);
}

#[test]
fn check_piped_input_without_input_does_nothing() {
    let mut s = typing("ab");
    let mut out = Vec::new();
    s.check_piped_input(&mut out);
    assert_eq!(out, Vec::new());
    assert_eq!(s.user_input, "ab");
    assert_eq!(s.piped_input, "");
}

#[test]
fn execute_input_confirms_in_green_and_keeps_the_line() {
    let s = typing("some text ");
    let mut out = Vec::new();
    s.execute_input(&mut out);
    assert_eq!(out, confirmed("some text "));
    assert_eq!(s.user_input, "some text ");
}

#[test]
fn first_cycle_without_piped_input_shows_the_prompt_and_waits() {
    let mut s = Session::new(String::new());
    let out = s.begin_cycle();
    assert_eq!(out, prompt());
    assert_eq!(s.phase, Phase::Typing);
    assert_eq!(s.user_input, "");
}

#[test]
fn begin_cycle_outside_prompting_does_nothing() {
    let mut s = typing("ab");
    assert_eq!(s.begin_cycle(), Vec::new());
    assert_eq!(s.user_input, "ab");
    assert_eq!(s.phase, Phase::Typing);
    s.phase = Phase::Finished;
    assert_eq!(s.begin_cycle(), Vec::new());
    assert_eq!(s.phase, Phase::Finished);
}

#[test]
fn piped_hello_is_echoed_once_and_submitted() {
    let mut s = Session::new("hello\n".to_string());
    let first = s.begin_cycle();
    let mut expected = prompt();
    expected.extend(piped_echo("hello\n"));
    expected.extend(confirmed("hello\n"));
    assert_eq!(first, expected);
    assert_eq!(first.len(), 10);
    assert_eq!(first[3], Output::Print("hello\n".to_string()));
    assert_eq!(first[7], Output::Print("\r\nYou entered: hello\n\r\n".to_string()));
    assert_eq!(s.phase, Phase::Prompting);
    assert_eq!(s.piped_input, "");
    assert_eq!(s.user_input, "");
    let second = s.begin_cycle();
    assert_eq!(second, prompt());
    assert_eq!(s.phase, Phase::Typing);
}

#[test]
fn run_on_piped_input_falls_through_to_typing() {
    let mut s = Session::new("hello\n".to_string());
    let out = s.run(&Vec::new());
    let mut expected = prompt();
    expected.extend(piped_echo("hello\n"));
    expected.extend(confirmed("hello\n"));
    expected.extend(prompt());
    assert_eq!(out, expected);
    assert_eq!(s.phase, Phase::Typing);
    assert_eq!(s.piped_input, "");
    assert_eq!(s.user_input, "");
}

#[test]
fn piped_input_with_several_lines_is_one_submission() {
    let mut s = Session::new("a\nb\n".to_string());
    let out = s.begin_cycle();
    assert_eq!(out[3], print("a\nb\n"));
    assert_eq!(out[7], print("\r\nYou entered: a\nb\n\r\n"));
    assert_eq!(out.len(), 10);
}

#[test]
fn piped_exit_is_submitted_and_does_not_end_the_session() {
    let mut s = Session::new("exit".to_string());
    let out = s.run(&Vec::new());
    assert_eq!(out[7], print("\r\nYou entered: exit\r\n"));
    assert_eq!(out.len(), 12);
    assert_eq!(s.phase, Phase::Typing);
}

#[test]
fn typed_line_is_confirmed_exactly() {
    let mut s = Session::new(String::new());
    let mut keys = typed("hello world");
    keys.push(enter());
    let out = s.run(&keys);
    let mut expected = prompt();
    for c in "hello world".chars() {
        expected.extend(echo(c));
    }
    expected.extend(confirmed("hello world"));
    expected.extend(prompt());
    assert_eq!(out, expected);
    assert_eq!(s.phase, Phase::Typing);
    assert_eq!(s.user_input, "");
}

#[test]
fn inner_and_outer_spaces_are_kept_in_the_confirmation() {
    let mut s = typing("");
    let mut keys = typed("  a  b  ");
    keys.push(enter());
    let out = s.run(&keys);
    assert_eq!(out[25], print("\r\nYou entered:   a  b  \r\n"));
    assert_eq!(out.len(), 30);
}

#[test]
fn ab_backspace_c_enter_submits_ac() {
    let mut s = Session::new(String::new());
    let keys = vec![ch('a'), ch('b'), backspace(), ch('c'), enter()];
    let out = s.run(&keys);
    let mut expected = prompt();
    expected.extend(echo('a'));
    expected.extend(echo('b'));
    expected.extend(erased());
    expected.extend(echo('c'));
    expected.extend(confirmed("ac"));
    expected.extend(prompt());
    assert_eq!(out, expected);
    assert_eq!(s.user_input, "");
    assert_eq!(s.phase, Phase::Typing);
}

#[test]
fn character_is_appended_and_echoed_in_blue() {
    let mut s = typing("ab");
    let out = s.handle_key(ch('c'));
    assert_eq!(out, vec![Output::Foreground(Color::Blue), print("c"), Output::Flush]);
    assert_eq!(s.user_input, "abc");
    assert_eq!(s.phase, Phase::Typing);
}

#[test]
fn character_outside_ascii_is_one_character() {
    let mut s = typing("a");
    let out = s.handle_key(ch('é'));
    assert_eq!(out, vec![Output::Foreground(Color::Blue), print("é"), Output::Flush]);
    assert_eq!(s.user_input, "aé");
    let out = s.handle_key(backspace());
    assert_eq!(out, vec![print("\u{8} \u{8}"), Output::Flush]);
    assert_eq!(s.user_input, "a");
}

#[test]
fn backspace_removes_exactly_the_last_character() {
    let mut s = typing("abc");
    let out = s.handle_key(backspace());
    assert_eq!(out, vec![print("\u{8} \u{8}"), Output::Flush]);
    assert_eq!(s.user_input, "ab");
    assert_eq!(s.phase, Phase::Typing);
}

#[test]
fn backspace_on_an_empty_line_is_a_no_op() {
    let mut s = typing("");
    let out = s.handle_key(backspace());
    assert_eq!(out, Vec::new());
    assert_eq!(s.user_input, "");
    assert_eq!(s.phase, Phase::Typing);
}

#[test]
fn enter_on_an_empty_line_confirms_an_empty_line() {
    let mut s = typing("");
    let out = s.handle_key(enter());
    assert_eq!(out, confirmed(""));
    assert_eq!(out[1], print("\r\nYou entered: \r\n"));
    assert_eq!(s.phase, Phase::Prompting);
}

#[test]
fn enter_confirms_and_clears_the_line() {
    let mut s = typing("abc");
    let out = s.handle_key(enter());
    assert_eq!(out, confirmed("abc"));
    assert_eq!(s.user_input, "");
    assert_eq!(s.phase, Phase::Prompting);
}

#[test]
fn exit_and_quit_end_the_session_without_confirmation() {
    for line in ["exit", "quit", "  exit", "quit  ", " \t exit \r\n", "\u{a0}quit\u{3000}"] {
        let mut s = typing(line);
        let out = s.handle_key(enter());
        assert_eq!(out, Vec::new(), "{:?}", line);
        assert_eq!(s.phase, Phase::Finished, "{:?}", line);
        assert!(s.is_finished());
        assert_eq!(s.user_input, line);
    }
}

#[test]
fn lines_that_only_look_like_exit_are_submitted() {
    for line in ["Exit", "QUIT", "exit now", "ex it", "exits", "exitquit", "", " ", "qui", "\u{200b}exit"] {
        let mut s = typing(line);
        let out = s.handle_key(enter());
        assert_eq!(out, confirmed(line), "{:?}", line);
        assert_eq!(s.phase, Phase::Prompting, "{:?}", line);
    }
}

#[test]
fn typed_exit_ends_the_run_and_later_keys_are_not_read() {
    let mut s = Session::new(String::new());
    let mut keys = typed("exit");
    keys.push(enter());
    keys.extend(typed("more"));
    keys.push(enter());
    let out = s.run(&keys);
    let mut expected = prompt();
    for c in "exit".chars() {
        expected.extend(echo(c));
    }
    assert_eq!(out, expected);
    assert!(s.is_finished());
    assert_eq!(s.user_input, "exit");
}

#[test]
fn control_c_ends_the_session_whatever_the_line_holds() {
    for line in ["", "abc", "exit", "half a line"] {
        let mut s = typing(line);
        let out = s.handle_key(ctrl_c());
        assert_eq!(out, Vec::new());
        assert_eq!(s.phase, Phase::Finished);
        assert_eq!(s.user_input, line);
    }
}

#[test]
fn control_c_in_the_middle_of_a_run_stops_it() {
    let mut s = Session::new(String::new());
    let keys = vec![ch('a'), ctrl_c(), ch('b'), enter()];
    let out = s.run(&keys);
    let mut expected = prompt();
    expected.extend(echo('a'));
    assert_eq!(out, expected);
    assert!(s.is_finished());
}

#[test]
fn run_without_keys_left_waits_in_typing() {
    let mut s = Session::new(String::new());
    let out = s.run(&typed("ab"));
    assert_eq!(out.len(), 8);
    assert_eq!(s.phase, Phase::Typing);
    assert_eq!(s.user_input, "ab");
    let out = s.run(&vec![enter()]);
    let mut expected = confirmed("ab");
    expected.extend(prompt());
    assert_eq!(out, expected);
}

#[test]
fn run_on_a_finished_session_does_nothing() {
    let mut s = typing("abc");
    s.phase = Phase::Finished;
    let out = s.run(&typed("xyz"));
    assert_eq!(out, Vec::new());
    assert_eq!(s.user_input, "abc");
    assert!(s.is_finished());
}

#[test]
fn keys_outside_typing_are_not_read() {
    let mut s = Session::new("piped".to_string());
    let out = s.handle_key(ch('a'));
    assert_eq!(out, Vec::new());
    assert_eq!(s.user_input, "");
    assert_eq!(s.piped_input, "piped");
    assert_eq!(s.phase, Phase::Prompting);
    let mut done = typing("abc");
    done.phase = Phase::Finished;
    assert_eq!(done.handle_key(enter()), Vec::new());
    assert_eq!(done.user_input, "abc");
    assert!(done.is_finished());
}

#[test]
fn other_keys_are_ignored() {
    let mut s = typing("abc");
    let out = s.handle_key(KeyEvent::plain(KeyCode::Other));
    assert_eq!(out, Vec::new());
    assert_eq!(s.user_input, "abc");
    assert_eq!(s.phase, Phase::Typing);
}

#[test]
fn two_lines_in_a_row_are_confirmed_one_by_one() {
    let mut s = Session::new(String::new());
    let keys = vec![ch('a'), enter(), ch('b'), enter()];
    let out = s.run(&keys);
    let mut expected = prompt();
    expected.extend(echo('a'));
    expected.extend(confirmed("a"));
    expected.extend(prompt());
    expected.extend(echo('b'));
    expected.extend(confirmed("b"));
    expected.extend(prompt());
    assert_eq!(out, expected);
}

#[test]
fn action_of_each_key() {
    assert_eq!(ctrl_c().action(), KeyAction::Interrupt);
    assert_eq!(ch('c').action(), KeyAction::Insert('c'));
    assert_eq!(ch('x').action(), KeyAction::Insert('x'));
    assert_eq!(enter().action(), KeyAction::Submit);
    assert_eq!(backspace().action(), KeyAction::Erase);
    assert_eq!(KeyEvent::plain(KeyCode::Other).action(), KeyAction::Ignore);
    let control_x = KeyEvent { code: KeyCode::Char('x'), modifiers: Modifiers::control() };
    assert_eq!(control_x.action(), KeyAction::Insert('x'));
    let control_upper = KeyEvent { code: KeyCode::Char('C'), modifiers: Modifiers::control() };
    assert_eq!(control_upper.action(), KeyAction::Insert('C'));
    let control_enter = KeyEvent { code: KeyCode::Enter, modifiers: Modifiers::control() };
    assert_eq!(control_enter.action(), KeyAction::Submit);
    let alt_backspace = KeyEvent {
        code: KeyCode::Backspace,
        modifiers: Modifiers { alt: true, ..Modifiers::none() },
    };
    assert_eq!(alt_backspace.action(), KeyAction::Erase);
}

#[test]
fn control_with_a_second_modifier_does_not_interrupt() {
    let base = Modifiers::control();
    let with_second = [
        Modifiers { shift: true, ..base },
        Modifiers { alt: true, ..base },
        Modifiers { super_key: true, ..base },
        Modifiers { hyper: true, ..base },
        Modifiers { meta: true, ..base },
    ];
    for modifiers in with_second {
        let key = KeyEvent { code: KeyCode::Char('c'), modifiers };
        assert_eq!(key.action(), KeyAction::Insert('c'));
        let mut s = typing("ab");
        let out = s.handle_key(key);
        assert_eq!(out, echo('c'));
        assert_eq!(s.user_input, "abc");
        assert_eq!(s.phase, Phase::Typing);
    }
}

#[test]
fn modifiers_none_and_control() {
    let none = Modifiers::none();
    assert!(!none.shift && !none.control && !none.alt);
    assert!(!none.super_key && !none.hyper && !none.meta);
    let control = Modifiers::control();
    assert!(control.control);
    assert_eq!(Modifiers { control: false, ..control }, none);
    assert_eq!(KeyEvent::plain(KeyCode::Enter).modifiers, none);
    assert_eq!(KeyEvent::plain(KeyCode::Char('q')).code, KeyCode::Char('q'));
}
