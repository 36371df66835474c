//! A workspace: a named set of child views with its own side menu and a
//! two-step delete confirmation.
use vstd::prelude::*;
use vstd::string::*;

use crate::removal::{
    closed_indices, kept, lemma_kept_len, lemma_shifted_prefix, lemma_shifted_removal_keeps_open,
    remove_shifted,
};
use crate::views::info::Info;
use crate::views::{has_kind, ChildView, ViewKind};

verus! {

/// Where a workspace stands in its delete confirmation.
#[derive(Clone, Copy, Debug, PartialEq, Eq, Structural)]
pub enum ConfirmDeleteState {
    Idle,
    Pending,
}

impl ConfirmDeleteState {
    /// The state after a cycle of the menu: a delete click arms an idle
    /// confirmation; without a delete click, any other menu action disarms
    /// it; a cycle with no click leaves it as it is.
    pub open spec fn after_menu(self, menu: MenuInput) -> ConfirmDeleteState {
        if menu.delete_clicked {
            ConfirmDeleteState::Pending
        } else if menu.other_action() {
            ConfirmDeleteState::Idle
        } else {
            self
        }
    }

    /// Whether a click of the delete button in this state confirms the delete.
    pub open spec fn confirms(self, clicked: bool) -> bool {
        clicked && self == ConfirmDeleteState::Pending
    }
}

/// What a workspace asks of the application after a cycle.
#[derive(Clone, Copy, Debug, PartialEq, Eq, Structural)]
pub enum WorkspaceAction {
    NoAction,
    AddWorkspace,
}

/// The clicks on a workspace's side menu during one cycle.
#[derive(Clone, Copy, Debug, PartialEq, Eq, Structural)]
pub struct MenuInput {
    pub toggle_info: bool,
    pub open_sqlite_data: bool,
    pub open_test_window: bool,
    pub delete_clicked: bool,
    pub add_workspace_clicked: bool,
    pub close_all_clicked: bool,
    pub organize_windows_clicked: bool,
}

impl MenuInput {
    /// Whether a menu control other than the delete button was clicked.
    pub open spec fn other_action(self) -> bool {
        self.toggle_info || self.open_sqlite_data || self.open_test_window
            || self.add_workspace_clicked || self.close_all_clicked || self.organize_windows_clicked
    }

    /// A cycle in which nothing on the menu was clicked.
    pub fn no_clicks() -> (r: MenuInput)
        ensures
            !r.delete_clicked,
            !r.other_action(),
    {
        MenuInput {
            toggle_info: false,
            open_sqlite_data: false,
            open_test_window: false,
            delete_clicked: false,
            add_workspace_clicked: false,
            close_all_clicked: false,
            organize_windows_clicked: false,
        }
    }
}

/// Whether clicking the menu entry of `kind` adds a view to `views`: only
/// where no view with that title is open yet.
pub open spec fn adds(views: Seq<ChildView>, kind: ViewKind, clicked: bool) -> bool {
    clicked && !has_kind(views, kind)
}

/// How the menu changes the views: "close all" empties them; otherwise the
/// data panel and then the test panel are appended, each fresh and each only
/// where its entry was clicked and no view of its kind is open.
pub open spec fn menu_views(before: Seq<ChildView>, after: Seq<ChildView>, menu: MenuInput) -> bool {
    let s = adds(before, ViewKind::SqliteData, menu.open_sqlite_data);
    let t = adds(before, ViewKind::TestWindow, menu.open_test_window);
    if menu.close_all_clicked {
        after.len() == 0
    } else {
        &&& after.len() == before.len() + (if s { 1int } else { 0int }) + (if t { 1int } else { 0int })
        &&& after.take(before.len() as int) == before
        &&& s ==> after[before.len() as int].kind_spec() == ViewKind::SqliteData && after[before.len() as int].is_fresh()
        &&& t ==> after.last().kind_spec() == ViewKind::TestWindow && after.last().is_fresh()
    }
}

/// One cycle of the side menu: what `Workspace::ui` does to the workspace,
/// to its `open` flag and what it reports.
pub open spec fn menu_step(
    before: Workspace,
    after: Workspace,
    open_before: bool,
    open_after: bool,
    menu: MenuInput,
    action: WorkspaceAction,
) -> bool {
    &&& after.name_text() == before.name_text()
    &&& after.confirm_state() == before.confirm_state().after_menu(menu)
    &&& open_after == (open_before && !before.confirm_state().confirms(menu.delete_clicked))
    &&& action == (if menu.add_workspace_clicked {
        WorkspaceAction::AddWorkspace
    } else {
        WorkspaceAction::NoAction
    })
    &&& after.info_open() == (!menu.close_all_clicked && (before.info_open() != menu.toggle_info))
    &&& menu_views(before.child_views(), after.child_views(), menu)
}

pub struct Workspace {
    pub name: String,
    confirm_delete_state: ConfirmDeleteState,
    info: Option<Info>,
    views: Vec<ChildView>,
}

impl Default for Workspace {
    fn default() -> (r: Workspace)
        ensures
            r.name_text() == "Workspace"@,
            r.is_new(),
    {
        Workspace::new_with_name(String::from_str("Workspace"))
    }
}

impl Workspace {
    /// The workspace's display name.
    pub closed spec fn name_text(&self) -> Seq<char> {
        self.name@
    }

    pub closed spec fn confirm_state(&self) -> ConfirmDeleteState {
        self.confirm_delete_state
    }

    /// Whether the read-me panel is open.
    pub closed spec fn info_open(&self) -> bool {
        self.info is Some
    }

    /// The open child views, in the order they were opened.
    pub closed spec fn child_views(&self) -> Seq<ChildView> {
        self.views@
    }

    /// The same workspace with its delete confirmation back at `Idle`.
    pub closed spec fn with_idle(self) -> Workspace {
        Workspace {
            name: self.name,
            confirm_delete_state: ConfirmDeleteState::Idle,
            info: self.info,
            views: self.views,
        }
    }

    /// A workspace as created: nothing pending, nothing open.
    pub open spec fn is_new(&self) -> bool {
        &&& self.confirm_state() == ConfirmDeleteState::Idle
        &&& !self.info_open()
        &&& self.child_views().len() == 0
    }

    pub proof fn lemma_with_idle(self)
        ensures
            self.with_idle().name_text() == self.name_text(),
            self.with_idle().confirm_state() == ConfirmDeleteState::Idle,
            self.with_idle().info_open() == self.info_open(),
            self.with_idle().child_views() == self.child_views(),
    {
    }

    pub fn new_with_name(name: String) -> (r: Workspace)
        ensures
            r.name_text() == name@,
            r.is_new(),
    {
        Workspace {
            name,
            confirm_delete_state: ConfirmDeleteState::Idle,
            info: None,
            views: Vec::new(),
        }
    }

    /// Puts the delete confirmation back at `Idle`.
    pub fn reset_confirm_delete(&mut self)
        ensures
            *final(self) == old(self).with_idle(),
    {
        self.confirm_delete_state = ConfirmDeleteState::Idle;
    }

    pub fn confirm_delete_state(&self) -> (r: ConfirmDeleteState)
        ensures
            r == self.confirm_state(),
    {
        self.confirm_delete_state
    }

    pub fn is_info_open(&self) -> (r: bool)
        ensures
            r == self.info_open(),
    {
        self.info.is_some()
    }

    pub fn view_count(&self) -> (r: usize)
        ensures
            r == self.child_views().len(),
    {
        self.views.len()
    }

    pub fn view(&self, index: usize) -> (r: &ChildView)
        requires
            index < self.child_views().len(),
        ensures
            *r == self.child_views()[index as int],
    {
        &self.views[index]
    }

    /// Lends a child view to the host, which draws it.
    pub fn view_mut(&mut self, index: usize) -> (r: &mut ChildView)
        requires
            index < old(self).child_views().len(),
        ensures
            *r == old(self).child_views()[index as int],
            final(self).child_views() == old(self).child_views().update(index as int, *final(r)),
            final(self).name_text() == old(self).name_text(),
            final(self).confirm_state() == old(self).confirm_state(),
            final(self).info_open() == old(self).info_open(),
    {
        &mut self.views[index]
    }

    /// Whether a view of the given kind is open.
    pub fn has_view(&self, kind: ViewKind) -> (r: bool)
        ensures
            r == has_kind(self.child_views(), kind),
    {
        let mut i: usize = 0;
        while i < self.views.len()
            invariant
                0 <= i <= self.views@.len(),
                forall|j: int| 0 <= j < i ==> (#[trigger] self.views@[j]).kind_spec() != kind,
            decreases self.views@.len() - i,
        {
            if self.views[i].kind() == kind {
                assert(self.views@[i as int].kind_spec() == kind);
                return true;
            }
            i += 1;
        }
        false
    }

    /// Opens a view of the given kind, unless one with its title is open.
    fn open_view(&mut self, kind: ViewKind)
        ensures
            final(self).name_text() == old(self).name_text(),
            final(self).confirm_state() == old(self).confirm_state(),
            final(self).info_open() == old(self).info_open(),
            has_kind(old(self).child_views(), kind) ==> final(self).child_views() == old(
                self,
            ).child_views(),
            !has_kind(old(self).child_views(), kind) ==> {
                &&& final(self).child_views().len() == old(self).child_views().len() + 1
                &&& final(self).child_views().drop_last() == old(self).child_views()
                &&& final(self).child_views().last().kind_spec() == kind
                &&& final(self).child_views().last().is_fresh()
            },
    {
        if !self.has_view(kind) {
            self.views.push(ChildView::new_of_kind(kind));
            assert(self.views@.drop_last() =~= old(self).views@);
        }
    }

    /// Applies the clicks on the side menu for one cycle: the read-me
    /// toggle, the data and test panel entries (each opens its view only
    /// where none with its title is open), the delete button, the add button
    /// and "close all". A confirmed delete sets `open` to false; the add
    /// button is reported in the result. Any click other than delete
    /// disarms a pending delete confirmation.
    pub fn ui(&mut self, open: &mut bool, menu: &MenuInput) -> (r: WorkspaceAction)
        ensures
            menu_step(*old(self), *final(self), *old(open), *final(open), *menu, r),
    {
        let ghost before = self.views@;
        if menu.toggle_info {
            self.info = match self.info {
                Some(_) => None,
                None => Some(Info::default()),
            };
        }
        if menu.open_sqlite_data {
            self.open_view(ViewKind::SqliteData);
        }
        let ghost mid = self.views@;
        proof {
            if has_kind(mid, ViewKind::TestWindow) {
                let i = choose|i: int| 0 <= i < mid.len() && (#[trigger] mid[i]).kind_spec() == ViewKind::TestWindow;
                if mid.len() != before.len() {
                    assert(mid.drop_last() == before);
                    if i < before.len() {
                        assert(mid.drop_last()[i] == mid[i]);
                    }
                } else {
                    assert(mid == before);
                }
                assert(before[i] == mid[i]);
            }
            if has_kind(before, ViewKind::TestWindow) {
                let i = choose|i: int| 0 <= i < before.len() && (#[trigger] before[i]).kind_spec() == ViewKind::TestWindow;
                if mid.len() != before.len() {
                    assert(mid.drop_last()[i] == mid[i]);
                }
                assert(mid[i] == before[i]);
            }
            assert(has_kind(mid, ViewKind::TestWindow) == has_kind(before, ViewKind::TestWindow));
        }
        if menu.open_test_window {
            self.open_view(ViewKind::TestWindow);
        }
        proof {
            let after = self.views@;
            if !menu.close_all_clicked {
                assert(after.take(before.len() as int) =~= before) by {
                    if after.len() != mid.len() {
                        assert(after.drop_last() == mid);
                    }
                    if mid.len() != before.len() {
                        assert(mid.drop_last() == before);
                    }
                }
                if adds(before, ViewKind::SqliteData, menu.open_sqlite_data) {
                    if after.len() != mid.len() {
                        assert(after.drop_last() == mid);
                        assert(after[before.len() as int] == after.drop_last()[before.len() as int]);
                    }
                }
            }
        }
        if menu.delete_clicked {
            match self.confirm_delete_state {
                ConfirmDeleteState::Idle => {
                    self.confirm_delete_state = ConfirmDeleteState::Pending;
                },
                ConfirmDeleteState::Pending => {
                    *open = false;
                },
            }
        }
        let mut action = WorkspaceAction::NoAction;
        if menu.add_workspace_clicked {
            action = WorkspaceAction::AddWorkspace;
        }
        if menu.close_all_clicked {
            self.info = None;
            self.views.clear();
        }
        if !menu.delete_clicked && (menu.toggle_info || menu.open_sqlite_data
            || menu.open_test_window || menu.add_workspace_clicked || menu.close_all_clicked
            || menu.organize_windows_clicked) {
            self.confirm_delete_state = ConfirmDeleteState::Idle;
        }
        action
    }

    /// Drops the child views that closed while they were drawn this cycle.
    /// `views_open[i]` is what the drawing left of view `i`'s open flag.
    /// The closed positions are removed in ascending order, each shifted
    /// down by the number removed before it, which keeps the others in order.
    pub fn remove_closed_views(&mut self, info_open: bool, views_open: &Vec<bool>)
        requires
            views_open@.len() == old(self).child_views().len(),
        ensures
            final(self).child_views() == kept(old(self).child_views(), views_open@),
            final(self).info_open() == (old(self).info_open() && info_open),
            final(self).name_text() == old(self).name_text(),
            final(self).confirm_state() == old(self).confirm_state(),
    {
        if !info_open {
            self.info = None;
        }
        let ghost s = self.views@;
        let ghost flags = views_open@;
        let n = views_open.len();
        let mut removed: usize = 0;
        let mut i: usize = 0;
        while i < n
            invariant
                n == flags.len(),
                s.len() == n,
                views_open@ == flags,
                0 <= i <= n,
                self.views@ == remove_shifted(s, closed_indices(flags.take(i as int))),
                removed == closed_indices(flags.take(i as int)).len(),
                self.name == old(self).name,
                self.confirm_delete_state == old(self).confirm_delete_state,
                self.info is Some == (old(self).info is Some && info_open),
            decreases n - i,
        {
            proof {
                lemma_shifted_prefix(s, flags, i as int);
                lemma_kept_len(s.take(i as int), flags.take(i as int));
                assert(flags.take(i + 1).drop_last() =~= flags.take(i as int));
            }
            if !views_open[i] {
                proof {
                    assert(closed_indices(flags.take(i + 1)).drop_last() =~= closed_indices(flags.take(i as int)));
                }
                self.views.remove(i - removed);
                removed += 1;
            }
            i += 1;
        }
        proof {
            lemma_shifted_removal_keeps_open(s, flags);
            assert(flags.take(n as int) =~= flags);
        }
    }
}

/// From `Idle`, the first click of the delete button only arms the
/// confirmation and leaves the workspace open; the second click in a row
/// closes it.
pub proof fn lemma_delete_needs_two_clicks(
    w0: Workspace,
    w1: Workspace,
    w2: Workspace,
    open1: bool,
    open2: bool,
    m1: MenuInput,
    m2: MenuInput,
    a1: WorkspaceAction,
    a2: WorkspaceAction,
)
    requires
        w0.confirm_state() == ConfirmDeleteState::Idle,
        m1.delete_clicked,
        m2.delete_clicked,
        menu_step(w0, w1, true, open1, m1, a1),
        menu_step(w1, w2, open1, open2, m2, a2),
    ensures
        open1,
        w1.confirm_state() == ConfirmDeleteState::Pending,
        !open2,
{
}

/// A reset between the two clicks (a tab switch, or a delete that did not
/// go through) starts the count again: the next click only arms the
/// confirmation and the workspace stays open.
pub proof fn lemma_reset_restarts_confirmation(
    w1: Workspace,
    w2: Workspace,
    open2: bool,
    m2: MenuInput,
    a2: WorkspaceAction,
)
    requires
        menu_step(w1.with_idle(), w2, true, open2, m2, a2),
    ensures
        open2,
        m2.delete_clicked ==> w2.confirm_state() == ConfirmDeleteState::Pending,
{
    w1.lemma_with_idle();
}

/// Clicking the data or test panel entry while a view with that title is
/// open leaves the views as they are.
pub proof fn lemma_open_existing_view_is_noop(
    before: Workspace,
    after: Workspace,
    open_before: bool,
    open_after: bool,
    menu: MenuInput,
    action: WorkspaceAction,
)
    requires
        menu_step(before, after, open_before, open_after, menu, action),
        !menu.close_all_clicked,
        menu.open_sqlite_data ==> has_kind(before.child_views(), ViewKind::SqliteData),
        menu.open_test_window ==> has_kind(before.child_views(), ViewKind::TestWindow),
    ensures
        after.child_views() == before.child_views(),
{
    let b = before.child_views();
    let a = after.child_views();
    assert(a.take(b.len() as int) == b);
    assert(a =~= a.take(b.len() as int));
}

/// A click on any menu control other than delete disarms a pending delete
/// confirmation and leaves the workspace open, so that the next delete click
/// only arms it again.
pub proof fn lemma_other_action_disarms(
    w0: Workspace,
    w1: Workspace,
    open_before: bool,
    open_after: bool,
    menu: MenuInput,
    action: WorkspaceAction,
)
    requires
        !menu.delete_clicked,
        menu.other_action(),
        menu_step(w0, w1, open_before, open_after, menu, action),
    ensures
        w1.confirm_state() == ConfirmDeleteState::Idle,
        open_after == open_before,
{
}

} // verus!
