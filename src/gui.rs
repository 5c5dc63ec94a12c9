//! Screen components drawn through a common interface.
use vstd::prelude::*;

verus! {

/// Something that can be drawn; drawing yields the line it shows.
pub trait Draw {
    /// The line that drawing this component shows.
    spec fn shown(&self) -> Seq<char>;

    /// Draws the component.
    fn draw(&self) -> (r: String)
        ensures
            r@ == self.shown(),
    ;
}

/// A screen holding components of any kinds.
pub struct Screen {
    pub components: Vec<Box<dyn Draw>>,
}

impl Screen {
    /// Draws every component in order; answers the lines shown.
    pub fn run(&self) -> (r: Vec<String>)
        ensures
            r@.len() == self.components@.len(),
            forall|i: int| 0 <= i < r@.len() ==> r@[i]@ == self.components@[i].shown(),
    {
        let mut out: Vec<String> = Vec::new();
        let mut i: usize = 0;
        while i < self.components.len()
            invariant
                i <= self.components@.len(),
                out@.len() == i,
                forall|k: int| 0 <= k < i ==> out@[k]@ == self.components@[k].shown(),
            decreases self.components.len() - i,
        {
            out.push(self.components[i].draw());
            i = i + 1;
        }
        out
    }
}

/// A button.
pub struct Button {
    pub width: u32,
    pub height: u32,
    pub label: String,
}

impl Draw for Button {
    open spec fn shown(&self) -> Seq<char> {
        "drawing button"@
    }

    fn draw(&self) -> (r: String) {
        String::from_str("drawing button")
    }
}

/// A box offering a choice among options.
pub struct SelectBox {
    pub width: u32,
    pub height: u32,
    pub options: Vec<String>,
}

impl Draw for SelectBox {
    open spec fn shown(&self) -> Seq<char> {
        "drawing selectbox"@
    }

    fn draw(&self) -> (r: String) {
        String::from_str("drawing selectbox")
    }
}

/// A screen whose components are all of one kind.
pub struct Screen2<T: Draw> {
    pub components: Vec<T>,
}

impl<T: Draw> Screen2<T> {
    /// Draws every component in order; answers the lines shown.
    pub fn run(&self) -> (r: Vec<String>)
        ensures
            r@.len() == self.components@.len(),
            forall|i: int| 0 <= i < r@.len() ==> r@[i]@ == self.components@[i].shown(),
    {
        let mut out: Vec<String> = Vec::new();
        let mut i: usize = 0;
        while i < self.components.len()
            invariant
                i <= self.components@.len(),
                out@.len() == i,
                forall|k: int| 0 <= k < i ==> out@[k]@ == self.components@[k].shown(),
            decreases self.components.len() - i,
        {
            out.push(self.components[i].draw());
            i = i + 1;
        }
        out
    }
}

} // verus!
