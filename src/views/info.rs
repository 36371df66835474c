use vstd::prelude::*;
use vstd::string::*;

verus! {

pub const WINDOW_TITLE: &'static str = "README";

/// The read-me panel; it has no state of its own.
pub struct Info;

impl Default for Info {
    fn default() -> (r: Info)
        ensures
            r == Info,
    {
        Info
    }
}

impl Info {
    pub fn title(&self) -> (r: String)
        ensures
            r@ == WINDOW_TITLE@,
    {
        String::from_str(WINDOW_TITLE)
    }
}

} // verus!
