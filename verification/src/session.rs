//! The session: its two buffers, its phase, and its steps.

use crate::key::{KeyAction, KeyEvent};
use crate::output::{
    char_echo_ops, confirmation_ops, erase_ops, piped_echo_ops, prompt_ops, views, views_concat,
    views_push, Color, Output, OutputView,
};
use crate::text::{clear, confirmation, is_exit_command, is_exit_text, pop_char, push_char};
use vstd::prelude::*;
use vstd::string::StringExecFns;

verus! {

/// Where the session stands.
#[derive(Clone, Copy, Debug, PartialEq, Eq, Structural)]
pub enum Phase {
    /// A cycle is about to begin: the prompt is owed.
    Prompting,
    /// The prompt is shown and the next key is awaited.
    Typing,
    /// The session has ended.
    Finished,
}

/// The line reader's state.
#[derive(Debug)]
pub struct Session {
    /// Input that was piped in, until the first cycle has taken it.
    pub piped_input: String,
    /// The line typed so far.
    pub user_input: String,
    /// Whether a prompt is owed, a key is awaited, or the session has ended.
    pub phase: Phase,
}

/// A session, with its buffers as sequences of characters.
pub ghost struct SessionView {
    pub piped_input: Seq<char>,
    pub user_input: Seq<char>,
    pub phase: Phase,
}

impl View for Session {
    type V = SessionView;

    open spec fn view(&self) -> SessionView {
        SessionView {
            piped_input: self.piped_input@,
            user_input: self.user_input@,
            phase: self.phase,
        }
    }
}

impl SessionView {
    /// Before a prompt the typed line is empty, and while the user types no
    /// piped input is pending.
    pub open spec fn wf(self) -> bool {
        &&& self.phase == Phase::Prompting ==> self.user_input.len() == 0
        &&& self.phase == Phase::Typing ==> self.piped_input.len() == 0
    }

    /// Pending piped input becomes the typed line.
    pub open spec fn take_piped(self) -> SessionView {
        if self.piped_input.len() > 0 {
            SessionView { piped_input: Seq::empty(), user_input: self.piped_input, ..self }
        } else {
            self
        }
    }

    /// Pending piped input is shown as it is taken.
    pub open spec fn take_piped_ops(self) -> Seq<OutputView> {
        if self.piped_input.len() > 0 {
            piped_echo_ops(self.piped_input)
        } else {
            Seq::empty()
        }
    }

    /// The state after the head of a cycle. A line that is already there
    /// (piped input) is submitted and the next cycle is owed; with none, the
    /// session waits for keys. Outside `Prompting` nothing changes.
    pub open spec fn begin(self) -> SessionView {
        if self.phase != Phase::Prompting {
            self
        } else if self.take_piped().user_input.len() > 0 {
            SessionView { user_input: Seq::empty(), ..self.take_piped() }
        } else {
            SessionView { phase: Phase::Typing, ..self.take_piped() }
        }
    }

    /// The output of the head of a cycle: the prompt, then pending piped
    /// input, then the confirmation of a line that is already there.
    pub open spec fn begin_ops(self) -> Seq<OutputView> {
        if self.phase != Phase::Prompting {
            Seq::empty()
        } else if self.take_piped().user_input.len() > 0 {
            prompt_ops() + self.take_piped_ops() + confirmation_ops(self.take_piped().user_input)
        } else {
            prompt_ops() + self.take_piped_ops()
        }
    }

    /// The state after a key event. Outside `Typing` nothing changes.
    pub open spec fn press(self, key: KeyEvent) -> SessionView {
        if self.phase != Phase::Typing {
            self
        } else {
            match key.action_spec() {
                KeyAction::Interrupt => SessionView { phase: Phase::Finished, ..self },
                KeyAction::Erase => if self.user_input.len() > 0 {
                    SessionView { user_input: self.user_input.drop_last(), ..self }
                } else {
                    self
                },
                KeyAction::Insert(c) => SessionView { user_input: self.user_input.push(c), ..self },
                KeyAction::Submit => if is_exit_text(self.user_input) {
                    SessionView { phase: Phase::Finished, ..self }
                } else {
                    SessionView { user_input: Seq::empty(), phase: Phase::Prompting, ..self }
                },
                KeyAction::Ignore => self,
            }
        }
    }

    /// The output of a key event.
    pub open spec fn press_ops(self, key: KeyEvent) -> Seq<OutputView> {
        if self.phase != Phase::Typing {
            Seq::empty()
        } else {
            match key.action_spec() {
                KeyAction::Interrupt => Seq::empty(),
                KeyAction::Erase => if self.user_input.len() > 0 {
                    erase_ops()
                } else {
                    Seq::empty()
                },
                KeyAction::Insert(c) => char_echo_ops(c),
                KeyAction::Submit => if is_exit_text(self.user_input) {
                    Seq::empty()
                } else {
                    confirmation_ops(self.user_input)
                },
                KeyAction::Ignore => Seq::empty(),
            }
        }
    }

    /// How many cycle heads can follow one another from here without a key.
    pub open spec fn pending_heads(self) -> nat {
        if self.phase != Phase::Prompting {
            0
        } else if self.piped_input.len() > 0 || self.user_input.len() > 0 {
            2
        } else {
            1
        }
    }

    /// The whole session on a sequence of key events: the state it ends in and
    /// all its output. Cycle heads run whenever one is owed; keys are taken
    /// one by one while the session is typing; keys after the end are not
    /// read.
    pub open spec fn run(self, keys: Seq<KeyEvent>) -> (SessionView, Seq<OutputView>)
        decreases keys.len(), self.pending_heads(),
    {
        match self.phase {
            Phase::Finished => (self, Seq::empty()),
            Phase::Prompting => {
                let rest = self.begin().run(keys);
                (rest.0, self.begin_ops() + rest.1)
            },
            Phase::Typing => if keys.len() == 0 {
                (self, Seq::empty())
            } else {
                let rest = self.press(keys[0]).run(keys.drop_first());
                (rest.0, self.press_ops(keys[0]) + rest.1)
            },
        }
    }
}

/// Appends one instruction.
fn push_op(out: &mut Vec<Output>, op: Output)
    ensures
        views(final(out)@) == views(old(out)@).push(op@),
{
    proof {
        views_push(out@, op);
    }
    out.push(op);
}

impl Session {
    /// A session at its start, with what was piped in (empty where nothing
    /// was).
    pub fn new(piped_input: String) -> (s: Session)
        ensures
            s@.piped_input == piped_input@,
            s@.user_input == Seq::<char>::empty(),
            s@.phase == Phase::Prompting,
            s@.wf(),
    {
        Session { piped_input, user_input: String::new(), phase: Phase::Prompting }
    }

    /// Whether the session has ended.
    pub fn is_finished(&self) -> (b: bool)
        ensures
            b == (self@.phase == Phase::Finished),
    {
        match self.phase {
            Phase::Finished => true,
            _ => false,
        }
    }

    /// Adds the prompt to `out`.
    pub fn display_prompt(&self, out: &mut Vec<Output>)
        ensures
            views(final(out)@) == views(old(out)@) + prompt_ops(),
    {
        push_op(out, Output::Print(String::from_str("Enter your input: ")));
        push_op(out, Output::Flush);
        assert(views(out@) =~= views(old(out)@) + prompt_ops());
    }

    /// Takes pending piped input as the typed line and adds its echo to
    /// `out`. With none pending it does nothing. This is the middle of a
    /// cycle's head: `begin_cycle` submits the line right after it.
    pub fn check_piped_input(&mut self, out: &mut Vec<Output>)
        ensures
            final(self)@ == old(self)@.take_piped(),
            views(final(out)@) == views(old(out)@) + old(self)@.take_piped_ops(),
    {
        if !self.piped_input.as_str().is_empty() {
            push_op(out, Output::Foreground(Color::Blue));
            push_op(out, Output::Print(self.piped_input.clone()));
            push_op(out, Output::Flush);
            push_op(out, Output::Foreground(Color::Reset));
            self.user_input = self.piped_input.clone();
            clear(&mut self.piped_input);
        }
        assert(views(out@) =~= views(old(out)@) + old(self)@.take_piped_ops());
    }

    /// Adds the confirmation of the typed line to `out`.
    pub fn execute_input(&self, out: &mut Vec<Output>)
        ensures
            views(final(out)@) == views(old(out)@) + confirmation_ops(self@.user_input),
    {
        push_op(out, Output::Foreground(Color::Green));
        push_op(out, Output::Print(confirmation(self.user_input.as_str())));
        push_op(out, Output::Foreground(Color::Reset));
        push_op(out, Output::Flush);
        assert(views(out@) =~= views(old(out)@) + confirmation_ops(self@.user_input));
    }

    /// The head of a cycle: the prompt, then piped input if any is pending.
    /// A line that is there is confirmed and cleared, and the next cycle is
    /// owed; otherwise the session goes on to wait for keys. Returns the
    /// output owed.
    pub fn begin_cycle(&mut self) -> (out: Vec<Output>)
        ensures
            final(self)@ == old(self)@.begin(),
            views(out@) == old(self)@.begin_ops(),
            old(self)@.wf() ==> final(self)@.wf(),
    {
        let mut out: Vec<Output> = Vec::new();
        match self.phase {
            Phase::Prompting => {
                self.display_prompt(&mut out);
                self.check_piped_input(&mut out);
                if !self.user_input.as_str().is_empty() {
                    self.execute_input(&mut out);
                    clear(&mut self.user_input);
                } else {
                    self.phase = Phase::Typing;
                }
            },
            _ => {},
        }
        assert(views(out@) =~= old(self)@.begin_ops());
        out
    }

    /// One key event while typing: the next state, and the output owed.
    /// Outside `Typing` the key is not read.
    pub fn handle_key(&mut self, key: KeyEvent) -> (out: Vec<Output>)
        ensures
            final(self)@ == old(self)@.press(key),
            views(out@) == old(self)@.press_ops(key),
            old(self)@.wf() ==> final(self)@.wf(),
    {
        let mut out: Vec<Output> = Vec::new();
        match self.phase {
            Phase::Typing => {
                match key.action() {
                    KeyAction::Interrupt => {
                        self.phase = Phase::Finished;
                    },
                    KeyAction::Erase => {
                        if !self.user_input.as_str().is_empty() {
                            pop_char(&mut self.user_input);
                            push_op(&mut out, Output::Print(String::from_str("\u{8} \u{8}")));
                            push_op(&mut out, Output::Flush);
                        }
                    },
                    KeyAction::Insert(c) => {
                        push_char(&mut self.user_input, c);
                        let mut echo = String::new();
                        push_char(&mut echo, c);
                        assert(echo@ =~= seq![c]);
                        push_op(&mut out, Output::Foreground(Color::Blue));
                        push_op(&mut out, Output::Print(echo));
                        push_op(&mut out, Output::Flush);
                    },
                    KeyAction::Submit => {
                        if is_exit_command(self.user_input.as_str()) {
                            self.phase = Phase::Finished;
                        } else {
                            self.execute_input(&mut out);
                            clear(&mut self.user_input);
                            self.phase = Phase::Prompting;
                        }
                    },
                    KeyAction::Ignore => {},
                }
            },
            _ => {},
        }
        assert(views(out@) =~= old(self)@.press_ops(key));
        out
    }

    /// Runs the session on the key events given, from wherever it stands,
    /// until it has ended or waits for a key that is not there. Returns all
    /// the output owed, in order.
    pub fn run(&mut self, keys: &[KeyEvent]) -> (out: Vec<Output>)
        ensures
            final(self)@ == old(self)@.run(keys@).0,
            views(out@) == old(self)@.run(keys@).1,
            old(self)@.wf() ==> final(self)@.wf(),
    {
        let ghost start = self@;
        let mut out: Vec<Output> = Vec::new();
        let mut i: usize = 0;
        assert(keys@.skip(0) =~= keys@);
        assert(views(out@) + start.run(keys@).1 =~= start.run(keys@).1);
        loop
            invariant
                i <= keys.len(),
                start == old(self)@,
                start.wf() ==> self@.wf(),
                start.run(keys@).0 == self@.run(keys@.skip(i as int)).0,
                start.run(keys@).1 == views(out@) + self@.run(keys@.skip(i as int)).1,
            decreases keys.len() - i, self@.pending_heads(),
        {
            let ghost before = self@;
            let ghost shown = out@;
            let ghost left = keys@.skip(i as int);
            match self.phase {
                Phase::Finished => {
                    assert(views(out@) + Seq::<OutputView>::empty() =~= views(out@));
                    return out;
                },
                Phase::Prompting => {
                    let mut more = self.begin_cycle();
                    let ghost added = more@;
                    out.append(&mut more);
                    proof {
                        views_concat(shown, added);
                        let rest = before.begin().run(left);
                        assert(views(shown) + (before.begin_ops() + rest.1) =~= (views(shown)
                            + before.begin_ops()) + rest.1);
                    }
                },
                Phase::Typing => {
                    if i >= keys.len() {
                        assert(views(out@) + Seq::<OutputView>::empty() =~= views(out@));
                        return out;
                    }
                    let key = keys[i];
                    let mut more = self.handle_key(key);
                    let ghost added = more@;
                    out.append(&mut more);
                    i = i + 1;
                    proof {
                        views_concat(shown, added);
                        assert(left.drop_first() =~= keys@.skip(i as int));
                        let rest = before.press(key).run(left.drop_first());
                        assert(views(shown) + (before.press_ops(key) + rest.1) =~= (views(shown)
                            + before.press_ops(key)) + rest.1);
                    }
                },
            }
        }
    }
}

} // verus!
