//! The lines the user has entered.

use crate::session::settings::{ansi, Color};
use crate::text::{join2, owned_views};
use vstd::prelude::*;

verus! {

/// The history of what was entered, oldest first.
pub struct UserInput {
    hist: Vec<String>,
}

impl View for UserInput {
    type V = Seq<Seq<char>>;

    closed spec fn view(&self) -> Seq<Seq<char>> {
        owned_views(self.hist@)
    }
}

/// The colour that what the user types is shown in.
pub open spec fn input_color() -> Color {
    Color { r: 173, g: 216, b: 230 }
}

impl UserInput {
    /// An empty history.
    pub fn new() -> (input: UserInput)
        ensures
            input@ == Seq::<Seq<char>>::empty(),
    {
        let input = UserInput { hist: Vec::new() };
        assert(input@ =~= Seq::<Seq<char>>::empty());
        input
    }

    /// What to write before a line is read: the prompt, then the switch to
    /// the colour of input.
    pub fn opening(prompt: &str) -> (s: String)
        ensures
            s@ == prompt@ + ansi(input_color()),
    {
        join2(prompt, Color::light_blue().to_ansi_color().as_str())
    }

    /// Takes a line that was read into the history, as its newest entry.
    pub fn record(&mut self, line: String)
        ensures
            final(self)@ == old(self)@.push(line@),
    {
        self.hist.push(line);
        assert(self@ =~= old(self)@.push(line@));
    }

    /// The lines entered so far, oldest first.
    pub fn history(&self) -> (lines: &Vec<String>)
        ensures
            owned_views(lines@) == self@,
    {
        &self.hist
    }
}

} // verus!
