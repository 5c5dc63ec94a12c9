//! A breakfast order and the sentence that announces it.
use vstd::prelude::*;

verus! {

/// A breakfast of toast and fruit.
pub struct Breakfast {
    pub toast: String,
    pub fruit: String,
}

/// The sentence that announces a breakfast.
pub open spec fn announcement(toast: Seq<char>, fruit: Seq<char>) -> Seq<char> {
    "you eat "@ + toast + " and "@ + fruit
}

impl Breakfast {
    /// The sentence that announces this breakfast.
    pub fn this_morning(&self) -> (r: String)
        ensures
            r@ == announcement(self.toast@, self.fruit@),
    {
        let s = String::from_str("you eat ");
        let s = s.concat(self.toast.as_str());
        let s = s.concat(" and ");
        s.concat(self.fruit.as_str())
    }
}

/// Orders avocado toast with apricot, changes the fruit to peach, and
/// announces the breakfast.
pub fn eat() -> (r: String)
    ensures
        r@ == announcement("avocado"@, "peach"@),
{
    let mut brk = Breakfast { toast: String::from_str("avocado"), fruit: String::from_str("apricot") };
    brk.fruit = String::from_str("peach");
    brk.this_morning()
}

} // verus!
