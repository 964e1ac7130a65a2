//! What holds of every session, stated over the session's model and proved.

use crate::key::{KeyAction, KeyCode, KeyEvent, Modifiers};
use crate::output::{
    char_echo_ops, confirmation_ops, piped_echo_ops, prompt_ops, OutputView,
};
use crate::session::{Phase, SessionView};
use crate::text::{is_exit_text, is_white_space, trimmed};
use vstd::prelude::*;

verus! {

/// The key event of a character typed with no modifier.
pub open spec fn typed_char(c: char) -> KeyEvent {
    KeyEvent {
        code: KeyCode::Char(c),
        modifiers: Modifiers {
            shift: false,
            control: false,
            alt: false,
            super_key: false,
            hyper: false,
            meta: false,
        },
    }
}

/// The key events of a text typed character by character.
pub open spec fn typed(text: Seq<char>) -> Seq<KeyEvent> {
    text.map_values(|c: char| typed_char(c))
}

/// The echo of a text typed character by character.
pub open spec fn echoes(text: Seq<char>) -> Seq<OutputView>
    decreases text.len(),
{
    if text.len() == 0 {
        Seq::empty()
    } else {
        char_echo_ops(text[0]) + echoes(text.drop_first())
    }
}

/// A text that neither begins nor ends with white space is its own trimmed
/// form.
pub proof fn trimmed_keeps_a_tight_text(s: Seq<char>)
    requires
        s.len() > 0 ==> !is_white_space(s[0]) && !is_white_space(s.last()),
    ensures
        trimmed(s) == s,
{
}

/// The words `exit` and `quit` are exit commands as they stand, and a text
/// without white space at its ends is an exit command only if it is one of
/// the two.
pub proof fn exit_words_are_exit_commands(s: Seq<char>)
    requires
        s.len() > 0 ==> !is_white_space(s[0]) && !is_white_space(s.last()),
    ensures
        is_exit_text("exit"@),
        is_exit_text("quit"@),
        is_exit_text(s) <==> s == "exit"@ || s == "quit"@,
{
    reveal_strlit("exit");
    reveal_strlit("quit");
    trimmed_keeps_a_tight_text("exit"@);
    trimmed_keeps_a_tight_text("quit"@);
    trimmed_keeps_a_tight_text(s);
}

/// The state in which the session waits for the first key of a new line.
pub open spec fn awaiting_line() -> SessionView {
    SessionView { piped_input: Seq::empty(), user_input: Seq::empty(), phase: Phase::Typing }
}

/// Typing a text appends it to the line and echoes each character; the
/// session then goes on from there with the keys that follow.
pub proof fn typing_fills_the_line(s: SessionView, text: Seq<char>, rest: Seq<KeyEvent>)
    requires
        s.phase == Phase::Typing,
    ensures
        s.run(typed(text) + rest).0 == (SessionView {
            user_input: s.user_input + text,
            ..s
        }).run(rest).0,
        s.run(typed(text) + rest).1 == echoes(text) + (SessionView {
            user_input: s.user_input + text,
            ..s
        }).run(rest).1,
    decreases text.len(),
{
    let t = SessionView { user_input: s.user_input + text, ..s };
    let keys = typed(text) + rest;
    if text.len() == 0 {
        assert(keys =~= rest);
        assert(s.user_input + text =~= s.user_input);
        assert(echoes(text) + t.run(rest).1 =~= t.run(rest).1);
    } else {
        let after = s.press(keys[0]);
        assert(keys[0] == typed_char(text[0]));
        assert(keys.drop_first() =~= typed(text.drop_first()) + rest);
        typing_fills_the_line(after, text.drop_first(), rest);
        assert(after.user_input + text.drop_first() =~= s.user_input + text);
        assert(char_echo_ops(text[0]) + (echoes(text.drop_first()) + t.run(rest).1) =~= echoes(text)
            + t.run(rest).1);
    }
}

/// A text typed and then Enter: unless the line is an exit command, the
/// confirmation holds exactly the line, that is what stood there and the text
/// typed, and the session shows the next prompt and waits for a new line.
pub proof fn typed_line_is_submitted(s: SessionView, text: Seq<char>, enter: KeyEvent)
    requires
        s.wf(),
        s.phase == Phase::Typing,
        enter.action_spec() == KeyAction::Submit,
        !is_exit_text(s.user_input + text),
    ensures
        s.run(typed(text).push(enter)).0 == awaiting_line(),
        s.run(typed(text).push(enter)).1 == echoes(text) + confirmation_ops(s.user_input + text)
            + prompt_ops(),
{
    let line = SessionView { user_input: s.user_input + text, ..s };
    let rest = seq![enter];
    assert(typed(text).push(enter) =~= typed(text) + rest);
    typing_fills_the_line(s, text, rest);
    let submitted = line.press(enter);
    let none = Seq::<KeyEvent>::empty();
    assert(rest[0] == enter);
    assert(rest.drop_first() =~= none);
    assert(s.piped_input =~= Seq::<char>::empty());
    assert(submitted.begin() == awaiting_line());
    assert(awaiting_line().run(none) == (awaiting_line(), Seq::<OutputView>::empty()));
    assert(submitted.run(none).0 == awaiting_line());
    assert(submitted.run(none).1 =~= prompt_ops());
    assert(line.run(rest).0 == awaiting_line());
    assert(line.run(rest).1 =~= confirmation_ops(s.user_input + text) + prompt_ops());
    assert(echoes(text) + (confirmation_ops(s.user_input + text) + prompt_ops()) =~= echoes(text)
        + confirmation_ops(s.user_input + text) + prompt_ops());
}

/// A text typed and then Enter, where the line is an exit command: the
/// session ends with the line as it stands, and nothing follows the echo of
/// the typing, whatever keys come after.
pub proof fn exit_line_ends_the_session(
    s: SessionView,
    text: Seq<char>,
    enter: KeyEvent,
    later: Seq<KeyEvent>,
)
    requires
        s.phase == Phase::Typing,
        enter.action_spec() == KeyAction::Submit,
        is_exit_text(s.user_input + text),
    ensures
        s.run(typed(text) + (seq![enter] + later)).0 == (SessionView {
            user_input: s.user_input + text,
            phase: Phase::Finished,
            ..s
        }),
        s.run(typed(text) + (seq![enter] + later)).1 == echoes(text),
{
    let line = SessionView { user_input: s.user_input + text, ..s };
    let rest = seq![enter] + later;
    typing_fills_the_line(s, text, rest);
    assert(rest[0] == enter);
    let ended = line.press(enter);
    assert(ended.run(rest.drop_first()) == (ended, Seq::<OutputView>::empty()));
    assert(line.run(rest).1 =~= Seq::<OutputView>::empty());
    assert(echoes(text) + Seq::<OutputView>::empty() =~= echoes(text));
}

/// Backspace on a line that is not empty removes exactly its last character
/// and wipes it from the screen; on an empty line it changes nothing and
/// writes nothing.
pub proof fn backspace_removes_the_last_character(s: SessionView, key: KeyEvent)
    requires
        s.phase == Phase::Typing,
        key.code == KeyCode::Backspace,
    ensures
        s.user_input.len() > 0 ==> s.press(key) == (SessionView {
            user_input: s.user_input.drop_last(),
            ..s
        }) && s.press(key).user_input.push(s.user_input.last()) == s.user_input,
        s.user_input.len() == 0 ==> s.press(key) == s && s.press_ops(key) == Seq::<
            OutputView,
        >::empty(),
{
    if s.user_input.len() > 0 {
        assert(s.user_input.drop_last().push(s.user_input.last()) =~= s.user_input);
    }
}

/// The letter `c` with Control alone ends the session at once, whatever the
/// line holds: nothing is written, the line is not submitted, and the keys
/// that follow are not read.
pub proof fn interrupt_ends_the_session(s: SessionView, key: KeyEvent, later: Seq<KeyEvent>)
    requires
        s.phase == Phase::Typing,
        key.code == KeyCode::Char('c'),
        key.modifiers.is_control_only(),
    ensures
        s.run(seq![key] + later).0 == (SessionView { phase: Phase::Finished, ..s }),
        s.run(seq![key] + later).1 == Seq::<OutputView>::empty(),
{
    let keys = seq![key] + later;
    assert(keys[0] == key);
    let ended = s.press(key);
    assert(ended.run(keys.drop_first()) == (ended, Seq::<OutputView>::empty()));
    assert(s.run(keys).1 =~= Seq::<OutputView>::empty());
}

/// Piped input is shown once and submitted as one line, as it is, without a
/// key being read; the session then shows the prompt again and waits for
/// keys. It is never read as an exit command.
pub proof fn piped_input_is_submitted_once(s: SessionView)
    requires
        s.phase == Phase::Prompting,
        s.piped_input.len() > 0,
    ensures
        s.run(Seq::empty()).0 == awaiting_line(),
        s.run(Seq::empty()).1 == prompt_ops() + piped_echo_ops(s.piped_input) + confirmation_ops(
            s.piped_input,
        ) + prompt_ops(),
{
    let keys = Seq::<KeyEvent>::empty();
    let once = s.begin();
    assert(once.begin() == awaiting_line());
    assert(awaiting_line().run(keys) == (awaiting_line(), Seq::<OutputView>::empty()));
    assert(once.run(keys).0 == awaiting_line());
    assert(once.run(keys).1 =~= prompt_ops());
    assert(s.run(keys).1 =~= prompt_ops() + piped_echo_ops(s.piped_input) + confirmation_ops(
        s.piped_input,
    ) + prompt_ops());
}

/// Whatever keys come, the session keeps its invariant: before a prompt the
/// line is empty, and while the user types no piped input is pending.
pub proof fn run_keeps_the_invariant(s: SessionView, keys: Seq<KeyEvent>)
    requires
        s.wf(),
    ensures
        s.run(keys).0.wf(),
    decreases keys.len(), s.pending_heads(),
{
    match s.phase {
        Phase::Finished => {},
        Phase::Prompting => {
            run_keeps_the_invariant(s.begin(), keys);
        },
        Phase::Typing => {
            if keys.len() > 0 {
                run_keeps_the_invariant(s.press(keys[0]), keys.drop_first());
            }
        },
    }
}

} // verus!
