//! A miniature component system: things that can draw themselves, and a
//! screen that draws each of its components in order.
//!
//! Drawing here means producing the text a host would print; putting that
//! text on an actual display is the host's business.

use vstd::prelude::*;
use vstd::string::StringExecFns;

verus! {

/// A component that can render itself as text.
pub trait Draw {
    /// The text this component renders to.
    spec fn rendered(&self) -> Seq<char>;

    /// Renders this component.
    fn draw(&self) -> (s: String)
        ensures
            s@ == self.rendered(),
    ;
}

/// A screen full of components of one kind, drawn in order.
pub struct Screen<T: Draw> {
    pub components: Vec<T>,
}

impl<T: Draw> Screen<T> {
    /// Draws every component, front to back, and returns the renderings in
    /// the same order.
    pub fn run(&self) -> (out: Vec<String>)
        ensures
            out@.len() == self.components@.len(),
            forall|i: int|
                0 <= i < out@.len() ==> out@[i]@ == self.components@[i].rendered(),
    {
        let mut out: Vec<String> = Vec::new();
        let mut i: usize = 0;
        while i < self.components.len()
            invariant
                0 <= i <= self.components@.len(),
                out@.len() == i,
                forall|k: int| 0 <= k < i ==> out@[k]@ == self.components@[k].rendered(),
            decreases self.components@.len() - i,
        {
            let component = &self.components[i];
            out.push(component.draw());
            i += 1;
        }
        out
    }
}

/// A push button with a fixed rendering.
pub struct Button {
    pub width: u32,
    pub height: u32,
    pub label: String,
}

impl Draw for Button {
    open spec fn rendered(&self) -> Seq<char> {
        "Rendering button."@
    }

    fn draw(&self) -> (s: String) {
        String::from_str("Rendering button.")
    }
}

} // verus!
