use vstd::prelude::*;
use crate::app::{AppModel, CommandPatternApp};
use crate::number::{i32_of, parse_i32};

verus! {

/// The expected answer to "5 + 5".
pub const EXPECTED_ANSWER: i32 = 10;

/// What one press of the increment button adds to the counter, in hundredths (1.00).
pub const INCREMENT_HUNDREDTHS: i64 = 100;

/// A user's intent, handed to the handler.
#[derive(Clone, Debug, PartialEq, Eq)]
pub enum Command {
    VerifyAnswer(String),
    IncrementByButton,
    CreateNewWindow(usize),
    CloseWindow(usize),
    NoOP,
}

/// The number that an answer counts as: what it parses to, or 0 where it does not parse.
pub open spec fn answer_value(text: Seq<char>) -> i32 {
    match i32_of(text) {
        Some(v) => v,
        None => 0,
    }
}

/// An answer is correct when the number it counts as is the expected one.
pub open spec fn answer_is_correct(text: Seq<char>) -> bool {
    answer_value(text) == EXPECTED_ANSWER
}

/// The counter after one increment: saturates at the largest `i64`.
pub open spec fn incremented(v: int) -> int {
    if v + INCREMENT_HUNDREDTHS <= i64::MAX {
        v + INCREMENT_HUNDREDTHS
    } else {
        i64::MAX as int
    }
}

/// The open windows without any entry equal to `id`.
pub open spec fn without(ids: Seq<usize>, id: usize) -> Seq<usize> {
    ids.filter(|w: usize| w != id)
}

/// The model after handling `c`.
pub open spec fn step(m: AppModel, c: Command) -> AppModel {
    match c {
        Command::VerifyAnswer(text) => AppModel { correct_answer: Some(answer_is_correct(text@)), ..m },
        Command::IncrementByButton => AppModel { value_hundredths: incremented(m.value_hundredths), ..m },
        Command::CreateNewWindow(id) => AppModel { open_windows: m.open_windows.push(id), ..m },
        Command::CloseWindow(id) => AppModel { open_windows: without(m.open_windows, id), ..m },
        Command::NoOP => m,
    }
}

/// A command fits a model when a window it opens has a fresh id from the generator.
pub open spec fn fits(m: AppModel, c: Command) -> bool {
    match c {
        Command::CreateNewWindow(id) => id < m.window_id && !m.open_windows.contains(id),
        _ => true,
    }
}

/// Leaving out entries keeps the rest distinct, and each kept entry comes from `ids`.
proof fn lemma_without_keeps(ids: Seq<usize>, id: usize)
    ensures
        ids.no_duplicates() ==> without(ids, id).no_duplicates(),
        forall|x: usize| #[trigger] without(ids, id).contains(x) ==> ids.contains(x) && x != id,
    decreases ids.len(),
{
    reveal(Seq::filter);
    if ids.len() > 0 {
        let rest = ids.drop_last();
        lemma_without_keeps(rest, id);
        assert forall|x: usize| #[trigger] without(ids, id).contains(x) implies ids.contains(x) && x != id by {
            if x != ids.last() || ids.last() == id {
                assert(without(rest, id).contains(x));
                assert(rest.contains(x));
            } else {
                assert(ids[ids.len() - 1] == x);
            }
        }
        if ids.no_duplicates() {
            assert(rest.no_duplicates());
            if ids.last() != id {
                assert(!rest.contains(ids.last()));
                assert(!without(rest, id).contains(ids.last()));
            }
        }
    }
}

/// Handling a command that fits keeps the model well-formed.
pub proof fn lemma_step_keeps_wf(m: AppModel, c: Command)
    requires
        m.wf(),
        fits(m, c),
    ensures
        step(m, c).wf(),
{
    match c {
        Command::CloseWindow(id) => {
            lemma_without_keeps(m.open_windows, id);
            let r = without(m.open_windows, id);
            assert forall|i: int| 0 <= i < r.len() implies (#[trigger] r[i]) < m.window_id by {
                assert(r.contains(r[i]));
            }
        },
        Command::CreateNewWindow(id) => {
            let r = m.open_windows.push(id);
            assert forall|i: int| 0 <= i < r.len() implies (#[trigger] r[i]) < m.window_id by {
                if i < m.open_windows.len() {
                    assert(r[i] == m.open_windows[i]);
                }
            }
        },
        _ => {},
    }
}

/// Copies `ids`, leaving out every entry equal to `id`.
fn ids_without(ids: &Vec<usize>, id: usize) -> (r: Vec<usize>)
    ensures
        r@ == without(ids@, id),
{
    let mut kept: Vec<usize> = Vec::new();
    let mut i: usize = 0;
    while i < ids.len()
        invariant
            i <= ids.len(),
            kept@ == without(ids@.take(i as int), id),
        decreases ids.len() - i,
    {
        proof {
            reveal(Seq::filter);
            assert(ids@.take(i + 1).drop_last() == ids@.take(i as int));
        }
        if ids[i] != id {
            kept.push(ids[i]);
        }
        i = i + 1;
    }
    assert(ids@.take(ids.len() as int) == ids@);
    kept
}

impl CommandPatternApp {
    /// Applies `command` to the state. Never fails: an answer that does not parse counts as 0,
    /// and closing a window that is not open changes nothing.
    pub fn handle_command(&mut self, command: Command)
        ensures
            final(self)@ == step(old(self)@, command),
            final(self).cmd_to_run == old(self).cmd_to_run,
            command is NoOP ==> *final(self) == *old(self),
            old(self)@.wf() && fits(old(self)@, command) ==> final(self)@.wf(),
    {
        proof {
            if old(self)@.wf() && fits(old(self)@, command) {
                lemma_step_keeps_wf(old(self)@, command);
            }
        }
        match command {
            Command::VerifyAnswer(answer) => {
                let value = match parse_i32(answer.as_str()) {
                    Some(v) => v,
                    None => 0,
                };
                self.correct_answer = Some(value == EXPECTED_ANSWER);
            },
            Command::IncrementByButton => {
                if self.value_hundredths <= i64::MAX - INCREMENT_HUNDREDTHS {
                    self.value_hundredths = self.value_hundredths + INCREMENT_HUNDREDTHS;
                } else {
                    self.value_hundredths = i64::MAX;
                }
            },
            Command::CreateNewWindow(id) => {
                self.open_windows.push(id);
            },
            Command::CloseWindow(id) => {
                self.open_windows = ids_without(&self.open_windows, id);
            },
            Command::NoOP => {},
        }
    }
}

impl CommandPatternApp {
    /// Makes `command` the one waiting to be handled, replacing any that was waiting.
    pub fn submit(&mut self, command: Command)
        ensures
            final(self)@ == old(self)@,
            final(self).cmd_to_run == Some(command),
            old(self)@.wf() && fits(old(self)@, command) ==> final(self).wf(),
    {
        self.cmd_to_run = Some(command);
    }

    /// Handles the waiting command, if any, and leaves none waiting.
    pub fn run_pending(&mut self)
        ensures
            final(self).cmd_to_run is None,
            final(self)@ == match old(self).cmd_to_run {
                Some(c) => step(old(self)@, c),
                None => old(self)@,
            },
            old(self).wf() ==> final(self).wf(),
    {
        let pending = self.cmd_to_run.take();
        match pending {
            Some(command) => self.handle_command(command),
            None => {},
        }
    }

    /// Asks for the text being edited to be checked as the answer.
    pub fn check_answer(&mut self)
        ensures
            final(self)@ == old(self)@,
            final(self).cmd_to_run == Some(Command::VerifyAnswer(old(self).label)),
            old(self)@.wf() ==> final(self).wf(),
    {
        let text = self.label.clone();
        self.submit(Command::VerifyAnswer(text));
    }

    /// Asks for a new window with the next id of the generator, and advances the generator.
    /// Where the generator is spent, no window is asked for and nothing changes.
    pub fn request_new_window(&mut self)
        ensures
            old(self).window_id < usize::MAX ==> {
                &&& final(self)@ == (AppModel { window_id: old(self)@.window_id + 1, ..old(self)@ })
                &&& final(self).cmd_to_run == Some(Command::CreateNewWindow(old(self).window_id))
            },
            old(self).window_id == usize::MAX ==> *final(self) == *old(self),
            old(self).wf() ==> final(self).wf(),
    {
        if self.window_id < usize::MAX {
            let id = self.window_id;
            self.window_id = id + 1;
            proof {
                if old(self)@.wf() {
                    assert(!self@.open_windows.contains(id)) by {
                        if self@.open_windows.contains(id) {
                            let k = choose|k: int|
                                0 <= k < self@.open_windows.len() && self@.open_windows[k] == id;
                            assert(old(self)@.open_windows[k] < id);
                        }
                    }
                }
            }
            self.submit(Command::CreateNewWindow(id));
        }
    }
}

/// The model after handling `c` for `n` times in a row.
pub open spec fn repeat(m: AppModel, c: Command, n: nat) -> AppModel
    decreases n,
{
    if n == 0 {
        m
    } else {
        step(repeat(m, c, (n - 1) as nat), c)
    }
}

/// An answer that parses to the expected number is judged correct.
pub proof fn lemma_expected_answer_is_correct(m: AppModel, text: String)
    requires
        i32_of(text@) == Some(EXPECTED_ANSWER),
    ensures
        step(m, Command::VerifyAnswer(text)).correct_answer == Some(true),
{
}

/// An answer that parses to another number, or does not parse, is judged wrong.
pub proof fn lemma_other_answer_is_wrong(m: AppModel, text: String)
    requires
        i32_of(text@) != Some(EXPECTED_ANSWER),
    ensures
        step(m, Command::VerifyAnswer(text)).correct_answer == Some(false),
{
}

/// Checking the same answer twice gives what checking it once gives.
pub proof fn lemma_verify_idempotent(m: AppModel, text: String)
    ensures
        step(step(m, Command::VerifyAnswer(text)), Command::VerifyAnswer(text))
            == step(m, Command::VerifyAnswer(text)),
{
}

/// Pressing increment `n` times adds `n` to the counter (`n` hundreds of hundredths), as long
/// as the result fits in an `i64`; nothing else changes.
pub proof fn lemma_increment_n_times(m: AppModel, n: nat)
    requires
        m.value_hundredths + n * INCREMENT_HUNDREDTHS <= i64::MAX,
    ensures
        repeat(m, Command::IncrementByButton, n)
            == (AppModel { value_hundredths: m.value_hundredths + n * INCREMENT_HUNDREDTHS, ..m }),
    decreases n,
{
    if n > 0 {
        lemma_increment_n_times(m, (n - 1) as nat);
        assert((n - 1) * INCREMENT_HUNDREDTHS + INCREMENT_HUNDREDTHS == n * INCREMENT_HUNDREDTHS)
            by (nonlinear_arith);
    }
}

/// Closing an id that is not among the open windows leaves them as they are.
pub proof fn lemma_close_absent(m: AppModel, id: usize)
    requires
        !m.open_windows.contains(id),
    ensures
        step(m, Command::CloseWindow(id)) == m,
{
    lemma_without_absent(m.open_windows, id);
}

proof fn lemma_without_absent(ids: Seq<usize>, id: usize)
    requires
        !ids.contains(id),
    ensures
        without(ids, id) == ids,
    decreases ids.len(),
{
    reveal(Seq::filter);
    if ids.len() > 0 {
        let rest = ids.drop_last();
        assert(!rest.contains(id)) by {
            if rest.contains(id) {
                let k = choose|k: int| 0 <= k < rest.len() && rest[k] == id;
                assert(ids[k] == id);
            }
        }
        lemma_without_absent(rest, id);
        assert(ids[ids.len() - 1] != id);
        assert(rest.push(ids.last()) == ids);
    }
}

/// Opening a window with an id that is not open and then closing it restores the open
/// windows as they were.
pub proof fn lemma_open_then_close(m: AppModel, id: usize)
    requires
        !m.open_windows.contains(id),
    ensures
        step(step(m, Command::CreateNewWindow(id)), Command::CloseWindow(id)) == m,
{
    reveal(Seq::filter);
    let pushed = m.open_windows.push(id);
    assert(pushed.drop_last() == m.open_windows);
    lemma_without_absent(m.open_windows, id);
}

/// The no-op changes nothing.
pub proof fn lemma_noop_changes_nothing(m: AppModel)
    ensures
        step(m, Command::NoOP) == m,
{
}

} // verus!
