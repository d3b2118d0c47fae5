use vstd::prelude::*;
use vstd::string::StringExecFns;
use crate::app::CommandPatternApp;
use crate::number::{decimal_of, push_decimal};

verus! {

/// The text shown inside the window with the given id.
pub open spec fn window_text(id: usize) -> Seq<char> {
    "I'm a window and my id is "@ + decimal_of(id as nat)
}

/// What one child window shows; its content is a function of its id.
#[derive(Clone, Debug)]
pub struct WindowContent {
    pub id: usize,
    pub content: String,
}

impl WindowContent {
    pub fn create(id: usize) -> (r: Self)
        ensures
            r.id == id,
            r.content@ == window_text(id),
    {
        let mut content = String::from_str("I'm a window and my id is ");
        push_decimal(&mut content, id);
        WindowContent { id, content }
    }
}

/// The line that counts the open windows.
pub open spec fn window_count_text(n: nat) -> Seq<char> {
    decimal_of(n) + " windows open"@
}

impl CommandPatternApp {
    /// The content of each open window, in display order.
    pub fn window_contents(&self) -> (r: Vec<WindowContent>)
        ensures
            r@.len() == self.open_windows@.len(),
            forall|i: int|
                0 <= i < r@.len() ==> (#[trigger] r@[i]).id == self.open_windows@[i]
                    && r@[i].content@ == window_text(self.open_windows@[i]),
    {
        let mut contents: Vec<WindowContent> = Vec::new();
        let mut i: usize = 0;
        while i < self.open_windows.len()
            invariant
                i <= self.open_windows@.len(),
                contents@.len() == i,
                forall|j: int|
                    0 <= j < i ==> (#[trigger] contents@[j]).id == self.open_windows@[j]
                        && contents@[j].content@ == window_text(self.open_windows@[j]),
            decreases self.open_windows@.len() - i,
        {
            contents.push(WindowContent::create(self.open_windows[i]));
            i = i + 1;
        }
        contents
    }

    /// The text that says how many windows are open.
    pub fn window_counter_text(&self) -> (r: String)
        ensures
            r@ == window_count_text(self.open_windows@.len()),
    {
        let mut text = String::new();
        push_decimal(&mut text, self.open_windows.len());
        text.append(" windows open");
        text
    }

    /// The sentence that reports the last answer check; empty before the first check.
    pub fn check_result_text(&self) -> (r: &'static str)
        ensures
            r@ == match self.correct_answer {
                Some(true) => "Your answer was correct."@,
                Some(false) => "Your answer was wrong."@,
                None => ""@,
            },
    {
        match self.correct_answer {
            Some(true) => "Your answer was correct.",
            Some(false) => "Your answer was wrong.",
            None => "",
        }
    }
}

} // verus!
