use vstd::prelude::*;
use crate::tui::date::Date;
use crate::tui::text::concat;

verus! {

/// The options of the subcommand that adds a task.
pub struct Args {
    /// Put the task into the backlog rather than on today.
    pub some_day: bool,
    /// The words of the title.
    pub title: Vec<String>,
}

/// Words joined with single spaces.
pub open spec fn joined(words: Seq<String>) -> Seq<char>
    decreases words.len(),
{
    if words.len() == 0 {
        Seq::empty()
    } else if words.len() == 1 {
        words[0]@
    } else {
        joined(words.drop_last()) + " "@ + words.last()@
    }
}

impl Args {
    /// The title: the words joined with single spaces.
    pub fn title(&self) -> (r: String)
        ensures
            r@ == joined(self.title@),
    {
        let mut acc = String::new();
        let mut i: usize = 0;
        while i < self.title.len()
            invariant
                0 <= i <= self.title@.len(),
                acc@ == joined(self.title@.take(i as int)),
            decreases self.title@.len() - i,
        {
            assert(self.title@.take(i + 1).drop_last() =~= self.title@.take(i as int));
            if i == 0 {
                acc = self.title[0].clone();
            } else {
                let spaced = concat(acc.as_str(), " ");
                acc = concat(spaced.as_str(), self.title[i].as_str());
            }
            i = i + 1;
        }
        assert(self.title@.take(i as int) =~= self.title@);
        acc
    }

    /// The day the new task is scheduled on: today, or none for the backlog.
    pub fn scheduled_for(&self, today: Date) -> (r: Option<Date>)
        ensures
            r == if self.some_day {
                None
            } else {
                Some(today)
            },
    {
        if self.some_day {
            None
        } else {
            Some(today)
        }
    }
}

} // verus!
