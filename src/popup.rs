use vstd::prelude::*;

verus! {

/// A modal box drawn over the panels, with a title and a message.
pub struct Popup {
    pub message: String,
    pub title: String,
    pub show_popup: bool,
}

impl Popup {
    /// Shows the box with `title` and `message`.
    pub fn show_popup(&mut self, title: String, message: String)
        ensures
            final(self).show_popup,
            final(self).title@ == title@,
            final(self).message@ == message@,
    {
        self.message = message;
        self.title = title;
        self.show_popup = true;
    }

    /// Hides the box and clears its title and message.
    pub fn close_popup(&mut self)
        ensures
            !final(self).show_popup,
            final(self).title@ == Seq::<char>::empty(),
            final(self).message@ == Seq::<char>::empty(),
    {
        self.message = String::new();
        self.title = String::new();
        self.show_popup = false;
    }
}

impl Default for Popup {
    fn default() -> (r: Self)
        ensures
            !r.show_popup,
            r.title@ == Seq::<char>::empty(),
            r.message@ == Seq::<char>::empty(),
    {
        Popup { message: String::new(), title: String::new(), show_popup: false }
    }
}

} // verus!
