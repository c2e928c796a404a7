//! The developer console: a scrollback history of styled lines capped by the
//! prompt line's vertical position, an editable prompt buffer, and execution
//! of whitespace-tokenized commands against a fixed verb table.

use vstd::prelude::*;
use crate::logcap::{appended, spec_colour, Colour, Fragment, Level, LogCapture};
use crate::state::{State, StateSwitch};
use crate::text::{find_token_end, lemma_first_space_le, token_eq, verb_of};

verus! {

/// Vertical position of the prompt line; history must stay above it.
pub const PROMPT_Y: u32 = 196;

/// Height of one rendered history line.
pub const LINE_HEIGHT: u32 = 18;

/// How many whole lines fit above the prompt.
pub open spec fn max_lines() -> int {
    PROMPT_Y as int / LINE_HEIGHT as int
}

/// `s` with the oldest lines dropped until the rendered height fits above
/// the prompt: only the newest `max_lines()` remain.
pub open spec fn trimmed(s: Seq<Fragment>) -> Seq<Fragment> {
    if s.len() <= max_lines() {
        s
    } else {
        s.subrange(s.len() - max_lines(), s.len() as int)
    }
}

/// Trimming is stable: appending one line to an already-trimmed history and
/// trimming again gives the same lines as trimming the untrimmed append.
pub proof fn lemma_trimmed_stable_push(s: Seq<Fragment>, f: Fragment)
    ensures
        trimmed(trimmed(s).push(f)) == trimmed(s.push(f)),
{
    if s.len() <= max_lines() {
    } else {
        assert(trimmed(trimmed(s).push(f)) =~= trimmed(s.push(f)));
    }
}

/// A domain error a richer command verb can report; it is converted to a log
/// record at the boundary of command execution and never unwinds further.
#[derive(Debug, Clone, Copy, PartialEq, Eq, Structural)]
pub enum CommandError {
    NoWorld,
    NoCampaign,
    InvalidArg,
    NoSuchLevel,
    NoSuchWeapon,
}

impl CommandError {
    /// The user-visible description of this error.
    pub fn message(self) -> (r: &'static str)
        ensures
            self == CommandError::NoWorld ==> r@ == "No world"@,
            self == CommandError::NoCampaign ==> r@ == "No campaign loaded"@,
            self == CommandError::InvalidArg ==> r@ == "Invalid argument"@,
            self == CommandError::NoSuchLevel ==> r@ == "No such level"@,
            self == CommandError::NoSuchWeapon ==> r@ == "No such weapon"@,
    {
        match self {
            CommandError::NoWorld => "No world",
            CommandError::NoCampaign => "No campaign loaded",
            CommandError::InvalidArg => "Invalid argument",
            CommandError::NoSuchLevel => "No such level",
            CommandError::NoSuchWeapon => "No such weapon",
        }
    }
}

/// The words of the fixed verb table are pairwise distinct and none of them
/// is empty.
pub proof fn lemma_verbs_distinct()
    ensures
        "clear"@ != "reload"@ && "clear"@ != "hello"@ && "clear"@ != "quit"@,
        "reload"@ != "hello"@ && "reload"@ != "quit"@ && "hello"@ != "quit"@,
        "clear"@.len() == 5 && "reload"@.len() == 6 && "hello"@.len() == 5 && "quit"@.len() == 4,
{
    reveal_strlit("clear");
    reveal_strlit("reload");
    reveal_strlit("hello");
    reveal_strlit("quit");
    assert("clear"@[0] == 'c' && "hello"@[0] == 'h' && "reload"@[0] == 'r' && "quit"@[0] == 'q');
}

/// The console: prior output and echoed commands, and the in-progress
/// command line.
#[derive(Debug)]
pub struct Console {
    history: Vec<Fragment>,
    prompt: Vec<char>,
}

impl Console {
    /// The history lines, oldest first.
    pub closed spec fn history(self) -> Seq<Fragment> {
        self.history@
    }

    /// The characters of the in-progress command line.
    pub closed spec fn prompt(self) -> Seq<char> {
        self.prompt@
    }

    /// The rendered history height never exceeds the prompt position.
    pub open spec fn wf(self) -> bool {
        self.history().len() * LINE_HEIGHT <= PROMPT_Y
    }

    /// A fresh console: one greeting line of history, an empty prompt.
    pub fn new() -> (c: Console)
        ensures
            c.wf(),
            c.history().len() == 1,
            c.history()[0].text@ == "Acheivements disabled.\n"@,
            c.history()[0].colour == None::<Colour>,
            c.prompt() == Seq::<char>::empty(),
    {
        let text = crate::text::chars_of("Acheivements disabled.\n");
        let mut history: Vec<Fragment> = Vec::new();
        history.push(Fragment { text, colour: None });
        Console { history, prompt: Vec::new() }
    }

    /// The history lines as stored, for rendering.
    pub fn history_lines(&self) -> (r: &Vec<Fragment>)
        ensures
            r@ == self.history(),
    {
        &self.history
    }

    /// The prompt characters as stored, for rendering.
    pub fn prompt_chars(&self) -> (r: &Vec<char>)
        ensures
            r@ == self.prompt(),
    {
        &self.prompt
    }

    /// Appends one line to history, then drops the oldest lines until the
    /// rendered height is back within budget: eviction is strictly oldest
    /// first, the newest lines always survive.
    pub fn push_line(&mut self, f: Fragment)
        requires
            old(self).wf(),
        ensures
            final(self).wf(),
            final(self).history() == trimmed(old(self).history().push(f)),
            final(self).prompt() == old(self).prompt(),
    {
        let ghost target = old(self).history@.push(f);
        self.history.push(f);
        // one more line than fits above the prompt forces an eviction
        let cap: usize = (PROMPT_Y / LINE_HEIGHT) as usize;
        while self.history.len() > cap
            invariant
                cap == max_lines(),
                trimmed(self.history@) == trimmed(target),
                self.history@.len() <= target.len(),
                target.len() <= max_lines() + 1,
                self.prompt@ == old(self).prompt@,
            decreases self.history@.len(),
        {
            let ghost pre = self.history@;
            self.history.remove(0);
            proof {
                assert(self.history@ =~= pre.subrange(1, pre.len() as int));
                assert(trimmed(self.history@) =~= trimmed(pre));
            }
        }
    }

    /// Empties the history, as the `clear` verb asks.
    fn clear_history(&mut self)
        ensures
            final(self).wf(),
            final(self).history() == Seq::<Fragment>::empty(),
            final(self).prompt() == old(self).prompt(),
    {
        self.history.clear();
    }

    /// Appends one character to the prompt.
    pub fn prompt_push(&mut self, c: char)
        ensures
            final(self).history() == old(self).history(),
            final(self).prompt() == old(self).prompt().push(c),
    {
        self.prompt.push(c);
    }

    /// Removes the last character of the prompt, if any.
    pub fn prompt_pop(&mut self)
        ensures
            final(self).history() == old(self).history(),
            old(self).prompt().len() == 0 ==> final(self).prompt() == old(self).prompt(),
            old(self).prompt().len() > 0 ==> final(self).prompt() == old(self).prompt().drop_last(),
    {
        let _ = self.prompt.pop();
    }

    /// Appends pasted characters to the prompt.
    pub fn prompt_extend(&mut self, pasted: &Vec<char>)
        ensures
            final(self).history() == old(self).history(),
            final(self).prompt() == old(self).prompt() + pasted@,
    {
        let mut i: usize = 0;
        while i < pasted.len()
            invariant
                0 <= i <= pasted@.len(),
                self.history@ == old(self).history@,
                self.prompt@ == old(self).prompt@ + pasted@.subrange(0, i as int),
            decreases pasted@.len() - i,
        {
            self.prompt.push(pasted[i]);
            proof {
                assert(self.prompt@ =~= old(self).prompt@ + pasted@.subrange(0, i + 1));
            }
            i += 1;
        }
        proof {
            assert(self.prompt@ =~= old(self).prompt@ + pasted@);
        }
    }

    /// Dispatches an already-tokenized command by its first token against the
    /// fixed verb table. The empty verb is a no-op; `clear` empties history;
    /// `reload` requests a transition to the menu screen; `hello` greets
    /// through the log path; `quit` asks the process to terminate; any other
    /// verb reports an unknown-command warning through the log path. No verb
    /// fails, so the error return is always `Ok`.
    pub fn handle(
        &mut self,
        state: &mut State,
        capture: &mut LogCapture,
        verb: &Vec<char>,
    ) -> (r: Result<(), CommandError>)
        requires
            old(self).wf(),
        ensures
            r == Ok::<(), CommandError>(()),
            final(self).wf(),
            final(self).prompt() == old(self).prompt(),
            ({
                let v = verb@;
                if v == Seq::<char>::empty() || v == "reload"@ || v == "hello"@ || v == "quit"@ {
                    final(self).history() == old(self).history()
                } else if v == "clear"@ {
                    final(self).history() == Seq::<Fragment>::empty()
                } else {
                    final(self).history() == old(self).history()
                }
            }),
            verb@ == "reload"@ ==> *final(state) == (State {
                switch_state: Some(StateSwitch::Menu),
                ..*old(state)
            }),
            verb@ == "quit"@ ==> *final(state) == (State { continuing: false, ..*old(state) }),
            (verb@ == Seq::<char>::empty() || verb@ == "clear"@ || verb@ == "hello"@ || !(verb@
                == "reload"@ || verb@ == "quit"@)) ==> *final(state) == *old(state),
            verb@ == "hello"@ ==> appended(
                old(capture).records(),
                final(capture).records(),
                "Hello!"@ + seq!['\n'],
                spec_colour(Level::Info),
            ),
            (verb@ == Seq::<char>::empty() || verb@ == "clear"@ || verb@ == "reload"@ || verb@
                == "quit"@) ==> *final(capture) == *old(capture),
            !(verb@ == Seq::<char>::empty() || verb@ == "clear"@ || verb@ == "reload"@ || verb@
                == "hello"@ || verb@ == "quit"@) ==> appended(
                old(capture).records(),
                final(capture).records(),
                "  Unknown command `"@ + verb@ + "'!"@ + seq!['\n'],
                spec_colour(Level::Warn),
            ),
    {
        proof {
            lemma_verbs_distinct();
        }
        let n = verb.len();
        if n == 0 {
            proof {
                assert(verb@ =~= Seq::<char>::empty());
            }
            return Ok(());
        }
        proof {
            assert(verb@.subrange(0, n as int) =~= verb@);
        }
        if token_eq(verb, n, "clear") {
            self.clear_history();
        } else if token_eq(verb, n, "reload") {
            state.switch(StateSwitch::Menu);
        } else if token_eq(verb, n, "hello") {
            let msg = crate::text::chars_of("Hello!");
            capture.append_record(Level::Info, msg);
        } else if token_eq(verb, n, "quit") {
            state.continuing = false;
        } else {
            let mut msg = crate::text::chars_of("  Unknown command `");
            let ghost head = msg@;
            let mut i: usize = 0;
            while i < verb.len()
                invariant
                    0 <= i <= verb@.len(),
                    msg@ == head + verb@.subrange(0, i as int),
                decreases verb@.len() - i,
            {
                msg.push(verb[i]);
                proof {
                    assert(msg@ =~= head + verb@.subrange(0, i + 1));
                }
                i += 1;
            }
            proof {
                assert(msg@ =~= head + verb@);
            }
            msg.push('\'');
            msg.push('!');
            proof {
                reveal_strlit("'!");
                assert(msg@ =~= "  Unknown command `"@ + verb@ + "'!"@);
            }
            capture.append_record(Level::Warn, msg);
        }
        proof {
            if verb@ == Seq::<char>::empty() {
                assert(verb@.len() == 0);
            }
        }
        Ok(())
    }

    /// Executes the current prompt line: echoes it into history behind a
    /// `"> "` marker, clears the prompt, tokenizes it on whitespace and
    /// dispatches the first token through [`Self::handle`]; a verb's domain
    /// error would be reported through the log path rather than unwinding.
    pub fn execute(&mut self, state: &mut State, capture: &mut LogCapture)
        requires
            old(self).wf(),
        ensures
            execute_rel(
                *old(self),
                *final(self),
                *old(state),
                *final(state),
                *old(capture),
                *final(capture),
            ),
    {
        let ghost p = self.prompt@;
        proof {
            lemma_first_space_le(p);
            lemma_verbs_distinct();
        }
        let end = find_token_end(&self.prompt);
        let mut verb: Vec<char> = Vec::new();
        let mut i: usize = 0;
        while i < end
            invariant
                0 <= i <= end <= self.prompt@.len(),
                self.prompt@ == p,
                self.history@ == old(self).history@,
                verb@ == p.subrange(0, i as int),
            decreases end - i,
        {
            verb.push(self.prompt[i]);
            proof {
                assert(verb@ =~= p.subrange(0, i + 1));
            }
            i += 1;
        }
        proof {
            assert(verb@ =~= verb_of(p));
        }

        let mut echo: Vec<char> = Vec::new();
        echo.push('>');
        echo.push(' ');
        let mut j: usize = 0;
        while j < self.prompt.len()
            invariant
                0 <= j <= self.prompt@.len(),
                self.prompt@ == p,
                self.history@ == old(self).history@,
                echo@ == seq!['>', ' '] + p.subrange(0, j as int),
            decreases self.prompt@.len() - j,
        {
            echo.push(self.prompt[j]);
            proof {
                assert(echo@ =~= seq!['>', ' '] + p.subrange(0, j + 1));
            }
            j += 1;
        }
        echo.push('\n');
        proof {
            assert(p.subrange(0, p.len() as int) =~= p);
            assert(echo@ =~= seq!['>', ' '] + p + seq!['\n']);
        }
        self.push_line(Fragment { text: echo, colour: None });
        self.prompt.clear();

        let r = self.handle(state, capture, &verb);
        if let Err(e) = r {
            let msg = crate::text::chars_of(e.message());
            capture.append_record(Level::Error, msg);
        }
    }
}

/// What one command execution does: how the console, the shared state and
/// the log capture after (`c1`, `s1`, `k1`) relate to their values before
/// (`c0`, `s0`, `k0`), for every verb of the fixed command table.
pub open spec fn execute_rel(
    c0: Console,
    c1: Console,
    s0: State,
    s1: State,
    k0: LogCapture,
    k1: LogCapture,
) -> bool {
    let p = c0.prompt();
    let v = verb_of(p);
    let echoed = trimmed(c0.history().push(c1.history().last()));
    &&& c1.wf()
    &&& c1.prompt() == Seq::<char>::empty()
    &&& (v == "clear"@ ==> c1.history() == Seq::<Fragment>::empty())
    &&& (v != "clear"@ ==> {
        &&& c1.history().len() > 0
        &&& c1.history() == echoed
        &&& c1.history().last().text@ == seq!['>', ' '] + p + seq!['\n']
        &&& c1.history().last().colour == None::<Colour>
    })
    &&& (v == "reload"@ ==> s1 == (State { switch_state: Some(StateSwitch::Menu), ..s0 }))
    &&& (v == "quit"@ ==> s1 == (State { continuing: false, ..s0 }))
    &&& ((v == Seq::<char>::empty() || v == "clear"@ || v == "hello"@ || !(v == "reload"@ || v
        == "quit"@)) ==> s1 == s0)
    &&& (v == "hello"@ ==> appended(
        k0.records(),
        k1.records(),
        "Hello!"@ + seq!['\n'],
        spec_colour(Level::Info),
    ))
    &&& ((v == Seq::<char>::empty() || v == "clear"@ || v == "reload"@ || v == "quit"@) ==> k1
        == k0)
    &&& (!(v == Seq::<char>::empty() || v == "clear"@ || v == "reload"@ || v == "hello"@ || v
        == "quit"@) ==> appended(
        k0.records(),
        k1.records(),
        "  Unknown command `"@ + v + "'!"@ + seq!['\n'],
        spec_colour(Level::Warn),
    ))
}

/// Any well-formed console keeps its rendered history height within the
/// prompt budget, and every mutation above preserves that bound while
/// evicting only the oldest lines: the trimmed suffix is what survives.
pub proof fn lemma_history_height_bounded(c: Console)
    requires
        c.wf(),
    ensures
        c.history().len() * LINE_HEIGHT <= PROMPT_Y,
        c.history().len() <= max_lines(),
{
}

} // verus!
