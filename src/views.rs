use vstd::prelude::*;

pub mod info;
pub mod sqlitedata;
pub mod testwindow;

use self::info::Info;
use self::sqlitedata::SqliteData;
use self::testwindow::TestWindow;

verus! {

/// The kinds of child view a workspace can host; each has its own window title.
#[derive(Clone, Copy, Debug, PartialEq, Eq, Structural)]
pub enum ViewKind {
    Info,
    SqliteData,
    TestWindow,
}

impl ViewKind {
    /// The window title shown for a view of this kind.
    pub open spec fn title_spec(self) -> Seq<char> {
        match self {
            ViewKind::Info => info::WINDOW_TITLE@,
            ViewKind::SqliteData => sqlitedata::WINDOW_TITLE@,
            ViewKind::TestWindow => testwindow::WINDOW_TITLE@,
        }
    }

    pub fn title(&self) -> (r: String)
        ensures
            r@ == self.title_spec(),
    {
        match self {
            ViewKind::Info => String::from_str(info::WINDOW_TITLE),
            ViewKind::SqliteData => String::from_str(sqlitedata::WINDOW_TITLE),
            ViewKind::TestWindow => String::from_str(testwindow::WINDOW_TITLE),
        }
    }
}

/// A child view owned by a workspace.
pub enum ChildView {
    Info(Info),
    SqliteData(SqliteData),
    TestWindow(TestWindow),
}

impl ChildView {
    pub open spec fn kind_spec(&self) -> ViewKind {
        match self {
            ChildView::Info(_) => ViewKind::Info,
            ChildView::SqliteData(_) => ViewKind::SqliteData,
            ChildView::TestWindow(_) => ViewKind::TestWindow,
        }
    }

    /// Holds of a view in the state it has right after it was opened.
    pub open spec fn is_fresh(&self) -> bool {
        match self {
            ChildView::Info(_) => true,
            ChildView::SqliteData(d) => d.is_fresh(),
            ChildView::TestWindow(t) => t.is_fresh(),
        }
    }

    /// A newly opened view of the given kind.
    pub fn new_of_kind(kind: ViewKind) -> (r: ChildView)
        ensures
            r.kind_spec() == kind,
            r.is_fresh(),
    {
        match kind {
            ViewKind::Info => ChildView::Info(Info::default()),
            ViewKind::SqliteData => ChildView::SqliteData(SqliteData::default()),
            ViewKind::TestWindow => ChildView::TestWindow(TestWindow::default()),
        }
    }

    pub fn kind(&self) -> (r: ViewKind)
        ensures
            r == self.kind_spec(),
    {
        match self {
            ChildView::Info(_) => ViewKind::Info,
            ChildView::SqliteData(_) => ViewKind::SqliteData,
            ChildView::TestWindow(_) => ViewKind::TestWindow,
        }
    }

    pub fn title(&self) -> (r: String)
        ensures
            r@ == self.kind_spec().title_spec(),
    {
        match self {
            ChildView::Info(v) => v.title(),
            ChildView::SqliteData(v) => v.title(),
            ChildView::TestWindow(v) => v.title(),
        }
    }
}

/// Whether some view of `views` has the given kind (and so the given title).
pub open spec fn has_kind(views: Seq<ChildView>, kind: ViewKind) -> bool {
    exists|i: int| 0 <= i < views.len() && (#[trigger] views[i]).kind_spec() == kind
}

} // verus!
