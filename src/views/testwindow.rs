use vstd::prelude::*;
use vstd::string::*;

verus! {

pub const WINDOW_TITLE: &'static str = "Test Window";

/// A panel with a close button of its own beside the window's close control.
pub struct TestWindow {
    close_button_pressed: bool,
}

impl Default for TestWindow {
    fn default() -> (r: TestWindow)
        ensures
            r.is_fresh(),
    {
        TestWindow { close_button_pressed: false }
    }
}

impl TestWindow {
    pub closed spec fn close_pressed(&self) -> bool {
        self.close_button_pressed
    }

    pub open spec fn is_fresh(&self) -> bool {
        !self.close_pressed()
    }

    pub fn title(&self) -> (r: String)
        ensures
            r@ == WINDOW_TITLE@,
    {
        String::from_str(WINDOW_TITLE)
    }

    /// Settles one drawing of the window: `window_open` is what the window's
    /// own close control left, `close_clicked` whether the panel's close
    /// button was clicked. Either one closes the view.
    pub fn show(&mut self, open: &mut bool, window_open: bool, close_clicked: bool)
        ensures
            final(self).close_pressed() == close_clicked,
            *final(open) == (window_open && !close_clicked),
    {
        self.close_button_pressed = close_clicked;
        if self.close_button_pressed {
            *open = false;
        } else {
            *open = window_open;
        }
    }

    pub fn close_button_pressed(&self) -> (r: bool)
        ensures
            r == self.close_pressed(),
    {
        self.close_button_pressed
    }
}

} // verus!
