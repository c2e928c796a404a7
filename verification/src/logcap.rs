//! Log capture: the sink that buffers this application's own diagnostic
//! records as styled text fragments until the console drains them into its
//! visible history once per frame.

use vstd::prelude::*;
use crate::text::chars_of;

verus! {

/// Severity of a diagnostic record.
#[derive(Debug, Copy, Clone, PartialEq, Eq, Structural)]
pub enum Level {
    Trace,
    Debug,
    Info,
    Warn,
    Error,
}

/// The colours the console styles captured records with.
#[derive(Debug, Copy, Clone, PartialEq, Eq, Structural)]
pub enum Colour {
    Blue,
    Green,
    Yellow,
    Red,
}

/// One line of styled text: the characters and an optional colour tag;
/// `None` renders in the default colour.
#[derive(Debug)]
pub struct Fragment {
    pub text: Vec<char>,
    pub colour: Option<Colour>,
}

/// The fixed severity-to-colour table; `None` for the default colour.
pub open spec fn spec_colour(l: Level) -> Option<Colour> {
    match l {
        Level::Trace => Some(Colour::Blue),
        Level::Info => None,
        Level::Debug => Some(Colour::Green),
        Level::Warn => Some(Colour::Yellow),
        Level::Error => Some(Colour::Red),
    }
}

/// Only records tagged with this application's own module-path prefix are
/// captured; third-party library records are ignored.
pub open spec fn spec_enabled(target: Seq<char>) -> bool {
    target.len() >= 7 && target.subrange(0, 7) == "cowfarg"@
}

/// `post` is `pre` with one fragment of the given text and colour appended.
pub open spec fn appended(
    pre: Seq<Fragment>,
    post: Seq<Fragment>,
    text: Seq<char>,
    colour: Option<Colour>,
) -> bool {
    &&& post.len() == pre.len() + 1
    &&& post.subrange(0, pre.len() as int) == pre
    &&& post.last().text@ == text
    &&& post.last().colour == colour
}

/// The drain relation: everything buffered comes out in order and the buffer
/// is left empty.
pub open spec fn drain_rel(pre: LogCapture, post: LogCapture, out: Seq<Fragment>) -> bool {
    out == pre.records() && post.records() == Seq::<Fragment>::empty()
}

/// Buffers captured diagnostic records in arrival order.
#[derive(Debug)]
pub struct LogCapture {
    fragments: Vec<Fragment>,
}

impl LogCapture {
    /// The buffered fragments, oldest first.
    pub closed spec fn records(self) -> Seq<Fragment> {
        self.fragments@
    }

    pub fn new() -> (c: LogCapture)
        ensures
            c.records() == Seq::<Fragment>::empty(),
    {
        LogCapture { fragments: Vec::new() }
    }

    /// How many records are buffered right now.
    pub fn len(&self) -> (n: usize)
        ensures
            n == self.records().len(),
    {
        self.fragments.len()
    }

    /// The colour a record of level `l` is styled with.
    pub fn get_colour(l: Level) -> (c: Option<Colour>)
        ensures
            c == spec_colour(l),
    {
        match l {
            Level::Trace => Some(Colour::Blue),
            Level::Info => None,
            Level::Debug => Some(Colour::Green),
            Level::Warn => Some(Colour::Yellow),
            Level::Error => Some(Colour::Red),
        }
    }

    /// Whether a record tagged `target` belongs to this application.
    pub fn enabled(&self, target: &str) -> (r: bool)
        ensures
            r == spec_enabled(target@),
    {
        proof {
            reveal_strlit("cowfarg");
        }
        let n = target.unicode_len();
        if n < 7 {
            return false;
        }
        let word = "cowfarg";
        let mut i: usize = 0;
        while i < 7
            invariant
                0 <= i <= 7,
                n == target@.len(),
                7 <= n,
                word@ == "cowfarg"@,
                word@.len() == 7,
                forall|j: int| 0 <= j < i ==> target@[j] == word@[j],
            decreases 7 - i,
        {
            if target.get_char(i) != word.get_char(i) {
                proof {
                    assert(target@.subrange(0, 7)[i as int] != word@[i as int]);
                }
                return false;
            }
            i += 1;
        }
        proof {
            assert(target@.subrange(0, 7) =~= word@);
        }
        true
    }

    /// Appends one already-filtered record: the message characters with a
    /// newline, styled by level.
    pub fn append_record(&mut self, level: Level, text: Vec<char>)
        ensures
            appended(
                old(self).records(),
                final(self).records(),
                text@ + seq!['\n'],
                spec_colour(level),
            ),
    {
        let ghost t = text@;
        let mut line = text;
        line.push('\n');
        proof {
            assert(line@ =~= t + seq!['\n']);
        }
        let colour = Self::get_colour(level);
        self.fragments.push(Fragment { text: line, colour });
        proof {
            assert(self.fragments@.subrange(0, old(self).fragments@.len() as int) =~= old(
                self,
            ).fragments@);
        }
    }

    /// Takes in one leveled, tagged, formatted record, as the diagnostic
    /// facade delivers them: a record from this application is buffered as a
    /// styled fragment; any other record is ignored.
    pub fn log(&mut self, target: &str, level: Level, msg: &str)
        ensures
            spec_enabled(target@) ==> appended(
                old(self).records(),
                final(self).records(),
                msg@ + seq!['\n'],
                spec_colour(level),
            ),
            !spec_enabled(target@) ==> *final(self) == *old(self),
    {
        if self.enabled(target) {
            let text = chars_of(msg);
            self.append_record(level, text);
        }
    }

    /// Atomically takes and empties the buffer, returning its contents for
    /// the caller to fold into visible history.
    pub fn empty(&mut self) -> (out: Vec<Fragment>)
        ensures
            drain_rel(*old(self), *final(self), out@),
    {
        let mut out: Vec<Fragment> = Vec::new();
        while self.fragments.len() > 0
            invariant
                out@ + self.fragments@ == old(self).fragments@,
            decreases self.fragments@.len(),
        {
            let f = self.fragments.remove(0);
            out.push(f);
            proof {
                assert(out@ + self.fragments@ =~= old(self).fragments@);
            }
        }
        proof {
            assert(out@ =~= old(self).fragments@);
            assert(self.fragments@ =~= Seq::<Fragment>::empty());
        }
        out
    }
}

/// Drain delivers each record at most once: a drain hands out exactly what
/// was buffered, and a second drain with no record captured in between hands
/// out the empty sequence.
pub proof fn lemma_drain_at_most_once(
    c0: LogCapture,
    c1: LogCapture,
    c2: LogCapture,
    out1: Seq<Fragment>,
    out2: Seq<Fragment>,
)
    requires
        drain_rel(c0, c1, out1),
        drain_rel(c1, c2, out2),
    ensures
        out1 == c0.records(),
        out2 == Seq::<Fragment>::empty(),
{
}

} // verus!
