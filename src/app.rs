use vstd::prelude::*;
use vstd::string::StringExecFns;
use crate::command_handler::Command;

verus! {

/// The counter's value when the application starts, in hundredths (2.70).
pub const START_VALUE_HUNDREDTHS: i64 = 270;

/// The application's state: the text being edited, the outcome of the last answer check,
/// a counter kept in hundredths, the generator of window ids, the ids of the open windows
/// in display order, and at most one command waiting to be handled.
#[derive(Clone, Debug, PartialEq)]
pub struct CommandPatternApp {
    /// The text being edited, checked by `VerifyAnswer`.
    pub label: String,
    /// `None` until the first check; then whether the last checked answer was correct.
    pub correct_answer: Option<bool>,
    /// The counter, in hundredths.
    pub value_hundredths: i64,
    /// The id that the next new window gets.
    pub window_id: usize,
    /// The ids of the open windows, in display order.
    pub open_windows: Vec<usize>,
    /// The command waiting to be handled, if any.
    pub cmd_to_run: Option<Command>,
}

/// The mathematical model of the application state.
pub struct AppModel {
    pub label: Seq<char>,
    pub correct_answer: Option<bool>,
    pub value_hundredths: int,
    pub window_id: nat,
    pub open_windows: Seq<usize>,
}

impl View for CommandPatternApp {
    type V = AppModel;

    open spec fn view(&self) -> AppModel {
        AppModel {
            label: self.label@,
            correct_answer: self.correct_answer,
            value_hundredths: self.value_hundredths as int,
            window_id: self.window_id as nat,
            open_windows: self.open_windows@,
        }
    }
}

impl AppModel {
    /// Open windows are distinct, and every one of them got its id from the generator.
    pub open spec fn wf(self) -> bool {
        &&& self.open_windows.no_duplicates()
        &&& forall|i: int|
            0 <= i < self.open_windows.len() ==> (#[trigger] self.open_windows[i]) < self.window_id
    }
}

impl CommandPatternApp {
    /// Well-formed: the model is well-formed and the pending command, if any, fits it.
    pub open spec fn wf(&self) -> bool {
        &&& self@.wf()
        &&& self.cmd_to_run matches Some(c) ==> crate::command_handler::fits(self@, c)
    }

    /// The state at start: greeting text, no check done, counter at 2.70, no window.
    pub fn new() -> (r: Self)
        ensures
            r@.label == "Hello World!"@,
            r@.correct_answer is None,
            r@.value_hundredths == START_VALUE_HUNDREDTHS,
            r@.window_id == 0,
            r@.open_windows == Seq::<usize>::empty(),
            r.cmd_to_run is None,
            r.wf(),
    {
        CommandPatternApp {
            label: String::from_str("Hello World!"),
            correct_answer: None,
            value_hundredths: START_VALUE_HUNDREDTHS,
            window_id: 0,
            open_windows: Vec::new(),
            cmd_to_run: None,
        }
    }
}

impl Default for CommandPatternApp {
    fn default() -> (r: Self)
        ensures
            r@.label == "Hello World!"@,
            r@.correct_answer is None,
            r@.value_hundredths == START_VALUE_HUNDREDTHS,
            r@.window_id == 0,
            r@.open_windows == Seq::<usize>::empty(),
            r.cmd_to_run is None,
            r.wf(),
    {
        Self::new()
    }
}

} // verus!
