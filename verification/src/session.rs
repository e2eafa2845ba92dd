//! The decisions of a run: where the text to speak comes from, and what the
//! interactive mode does with each line typed at its prompt.
use vstd::prelude::*;
use crate::text::{trim, trim_seq, eq_ignore_ascii_case, eq_ignore_ascii_case_seq};
use crate::decimal::{decimal, push_decimal};

verus! {

/// Where the text to synthesize comes from.
#[derive(Debug, PartialEq, Eq)]
pub enum InputSource<P> {
    /// The text given on the command line.
    Text(String),
    /// The contents of the file at this path.
    File(P),
    /// The built-in sample sentence.
    Sample,
}

/// The text given on the command line wins over a file, and the sample
/// sentence is spoken when neither is given.
pub fn choose_input<P>(text: Option<String>, file: Option<P>) -> (s: InputSource<P>)
    ensures
        match (text, file) {
            (Some(t), _) => s == InputSource::<P>::Text(t),
            (None, Some(f)) => s == InputSource::<P>::File(f),
            (None, None) => s == InputSource::<P>::Sample,
        },
{
    match text {
        Some(t) => InputSource::Text(t),
        None => match file {
            Some(f) => InputSource::File(f),
            None => InputSource::Sample,
        },
    }
}

/// The sentence spoken when no text is given.
pub fn sample_text() -> (s: &'static str)
    ensures
        s@ == "Welcome to VibeVoice CLI. A standalone and portable voice text-to-speech synthesis tool written in Rust."@,
{
    "Welcome to VibeVoice CLI. A standalone and portable voice text-to-speech synthesis tool written in Rust."
}

/// A line that ends the interactive mode: `exit` or `quit`, in any ASCII case.
pub open spec fn is_quit_command(t: Seq<char>) -> bool {
    eq_ignore_ascii_case_seq(t, "exit"@) || eq_ignore_ascii_case_seq(t, "quit"@)
}

/// The name of the file that the `i`-th spoken line is saved to.
pub open spec fn output_name_spec(i: nat) -> Seq<char> {
    "output_"@ + decimal(i) + ".wav"@
}

/// What the interactive mode does next.
#[derive(Debug, PartialEq, Eq)]
pub enum SessionAction {
    /// Leave the interactive mode.
    Quit,
    /// Ignore the line and prompt again.
    Skip,
    /// Synthesize `text` into the file named `output_name` in the working directory.
    Speak {
        /// The text to speak.
        text: String,
        /// The name of the output file.
        output_name: String,
    },
}

/// The interactive prompt loop's state: the number of the next output file.
pub struct InteractiveSession {
    next_index: u64,
}

impl InteractiveSession {
    /// The number of the next output file.
    pub closed spec fn index(&self) -> nat {
        self.next_index as nat
    }

    /// A session whose first output file is numbered 1.
    pub fn new() -> (s: InteractiveSession)
        ensures
            s.index() == 1,
    {
        InteractiveSession { next_index: 1 }
    }

    /// The number of the next output file.
    pub fn next_index(&self) -> (n: u64)
        ensures
            n == self.index(),
    {
        self.next_index
    }

    /// Takes one line typed at the prompt (`None` at the end of the input).
    /// The end of the input, `exit` and `quit` leave; a blank line is
    /// skipped; any other line, without its surrounding whitespace, is spoken
    /// into `output_<n>.wav`, and the number moves on by one.
    pub fn on_input(&mut self, line: Option<&str>) -> (a: SessionAction)
        requires
            old(self).index() < u64::MAX,
        ensures
            match line {
                None => a == SessionAction::Quit && final(self).index() == old(self).index(),
                Some(l) => {
                    let t = trim_seq(l@);
                    if t.len() == 0 {
                        a == SessionAction::Skip && final(self).index() == old(self).index()
                    } else if is_quit_command(t) {
                        a == SessionAction::Quit && final(self).index() == old(self).index()
                    } else {
                        &&& a matches SessionAction::Speak { text, output_name }
                        &&& text@ == t
                        &&& output_name@ == output_name_spec(old(self).index())
                        &&& final(self).index() == old(self).index() + 1
                    }
                },
            },
    {
        let l = match line {
            Some(l) => l,
            None => {
                return SessionAction::Quit;
            },
        };
        let t = trim(l);
        if t.as_str().is_empty() {
            return SessionAction::Skip;
        }
        if eq_ignore_ascii_case(t.as_str(), "exit") || eq_ignore_ascii_case(t.as_str(), "quit") {
            return SessionAction::Quit;
        }
        let mut name = "output_".to_owned();
        push_decimal(&mut name, self.next_index);
        name.append(".wav");
        self.next_index = self.next_index + 1;
        SessionAction::Speak { text: t, output_name: name }
    }
}

/// Different lines of one session are saved to different files: the names
/// of different numbers differ.
pub proof fn lemma_output_names_distinct(i: nat, j: nat)
    requires
        i != j,
    ensures
        output_name_spec(i) != output_name_spec(j),
{
    crate::decimal::lemma_decimal_digits(i);
    crate::decimal::lemma_decimal_digits(j);
    let a = output_name_spec(i);
    let b = output_name_spec(j);
    let p: nat = "output_"@.len();
    let q: nat = ".wav"@.len();
    if a == b {
        assert(a.subrange(p as int, a.len() - q) =~= decimal(i));
        assert(b.subrange(p as int, b.len() - q) =~= decimal(j));
    }
}

/// An interactive output name holds no path separator, so the file lands
/// directly in the working directory.
pub proof fn lemma_output_name_is_plain(i: nat)
    ensures
        forall|k: int|
            0 <= k < output_name_spec(i).len() ==> #[trigger] output_name_spec(i)[k] != '/'
                && output_name_spec(i)[k] != '\\',
{
    broadcast use vstd::string::group_string_axioms;

    reveal_strlit("output_");
    reveal_strlit(".wav");
    crate::decimal::lemma_decimal_digits(i);
    let d = decimal(i);
    let s = output_name_spec(i);
    assert forall|k: int| 0 <= k < s.len() implies #[trigger] s[k] != '/' && s[k] != '\\' by {
        if 7 <= k < 7 + d.len() {
            assert(s[k] == d[k - 7]);
            assert(crate::decimal::is_digit(d[k - 7]));
        }
    }
}

/// A line ends the session exactly when, trimmed, it is `exit` or `quit` up
/// to ASCII case: such a line has exactly four characters, so any longer line,
/// even one that holds the word `quit`, is spoken.
pub proof fn lemma_quit_words_exact(t: Seq<char>)
    ensures
        is_quit_command(t) <==> (eq_ignore_ascii_case_seq(t, "exit"@) || eq_ignore_ascii_case_seq(
            t,
            "quit"@,
        )),
        is_quit_command(t) ==> t.len() == 4,
        t.len() != 4 ==> !is_quit_command(t),
{
    broadcast use vstd::string::group_string_axioms;

    reveal_strlit("exit");
    reveal_strlit("quit");
}

} // verus!
