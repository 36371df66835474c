//! The application: an ordered, never empty list of workspaces, one of them
//! selected, and the warning shown when the last one was to be deleted.
use vstd::prelude::*;
use vstd::string::*;

use crate::workspace::{menu_step, menu_views, ConfirmDeleteState, MenuInput, Workspace, WorkspaceAction};

verus! {

/// The corner radii of the application's windows, in points.
#[derive(Clone, Copy, Debug, PartialEq, Eq, Structural)]
pub struct CornerRadius {
    pub nw: u8,
    pub ne: u8,
    pub sw: u8,
    pub se: u8,
}

/// Settings shared by every window of the application.
#[derive(Clone, Copy, Debug, PartialEq, Eq, Structural)]
pub struct AppSettings {
    pub global_rounding: CornerRadius,
}

impl Default for AppSettings {
    fn default() -> (r: AppSettings)
        ensures
            r.global_rounding == (CornerRadius { nw: 8, ne: 8, sw: 16, se: 24 }),
    {
        AppSettings { global_rounding: CornerRadius { nw: 8, ne: 8, sw: 16, se: 24 } }
    }
}

pub const WELCOME_NAME: &'static str = "Welcome";

pub const NEW_WORKSPACE_PREFIX: &'static str = "Workspace";

/// The digit character of `d`, for `d < 10`.
pub open spec fn digit_char(d: nat) -> char {
    seq!['0', '1', '2', '3', '4', '5', '6', '7', '8', '9'][d as int]
}

/// `n` written in decimal, without leading zeros.
pub open spec fn decimal(n: nat) -> Seq<char>
    decreases n,
{
    if n < 10 {
        seq![digit_char(n)]
    } else {
        decimal(n / 10).push(digit_char(n % 10))
    }
}

/// The name of the workspace created while the counter stands at `n`.
pub open spec fn new_workspace_name(n: nat) -> Seq<char> {
    NEW_WORKSPACE_PREFIX@ + decimal(n)
}

/// The one-character text of the digit `d`.
fn digit_text(d: usize) -> (r: &'static str)
    requires
        d < 10,
    ensures
        r@ == seq![digit_char(d as nat)],
{
    if d == 0 {
        proof {
            reveal_strlit("0");
        }
        "0"
    } else if d == 1 {
        proof {
            reveal_strlit("1");
        }
        "1"
    } else if d == 2 {
        proof {
            reveal_strlit("2");
        }
        "2"
    } else if d == 3 {
        proof {
            reveal_strlit("3");
        }
        "3"
    } else if d == 4 {
        proof {
            reveal_strlit("4");
        }
        "4"
    } else if d == 5 {
        proof {
            reveal_strlit("5");
        }
        "5"
    } else if d == 6 {
        proof {
            reveal_strlit("6");
        }
        "6"
    } else if d == 7 {
        proof {
            reveal_strlit("7");
        }
        "7"
    } else if d == 8 {
        proof {
            reveal_strlit("8");
        }
        "8"
    } else {
        proof {
            reveal_strlit("9");
        }
        "9"
    }
}

/// `n` written in decimal.
fn decimal_text(n: usize) -> (r: String)
    ensures
        r@ == decimal(n as nat),
    decreases n,
{
    if n < 10 {
        String::from_str(digit_text(n))
    } else {
        let mut r = decimal_text(n / 10);
        r.append(digit_text(n % 10));
        r
    }
}

/// The index that stays selected after the workspace at `sel` was removed
/// from a list of `n` workspaces.
pub open spec fn clamped_after_removal(sel: int, n: int) -> int {
    if sel < n - 1 {
        sel
    } else {
        n - 2
    }
}

pub struct Application {
    selected_workspace: usize,
    workspaces: Vec<Workspace>,
    show_last_workspace_delete_warning: bool,
    next_workspace_id_counter: usize,
    settings: AppSettings,
}

impl Default for Application {
    fn default() -> (r: Application)
        ensures
            r.wf(),
            r.workspace_list().len() == 1,
            r.workspace_list()[0].name_text() == WELCOME_NAME@,
            r.workspace_list()[0].is_new(),
            r.selected() == 0,
            !r.warning_shown(),
            r.counter() == 1,
            r.settings_spec().global_rounding == (CornerRadius { nw: 8, ne: 8, sw: 16, se: 24 }),
    {
        let mut workspaces: Vec<Workspace> = Vec::new();
        workspaces.push(Workspace::new_with_name(String::from_str(WELCOME_NAME)));
        Application {
            selected_workspace: 0,
            workspaces,
            show_last_workspace_delete_warning: false,
            next_workspace_id_counter: 1,
            settings: AppSettings::default(),
        }
    }
}

/// What `Application::apply_workspace_outcome` does, given the selected
/// workspace's `open` flag and action after its cycle.
pub open spec fn outcome_step(
    before: Application,
    after: Application,
    open: bool,
    action: WorkspaceAction,
) -> bool {
    let ws = before.workspace_list();
    let n = ws.len() as int;
    let sel = before.selected();
    &&& after.settings_spec() == before.settings_spec()
    &&& if !open {
        if n > 1 {
            &&& after.workspace_list() == ws.remove(sel)
            &&& after.selected() == clamped_after_removal(sel, n)
            &&& after.warning_shown() == before.warning_shown()
            &&& after.counter() == before.counter()
        } else {
            &&& after.workspace_list() == ws.update(sel, ws[sel].with_idle())
            &&& after.selected() == sel
            &&& after.warning_shown()
            &&& after.counter() == before.counter()
        }
    } else if action == WorkspaceAction::AddWorkspace {
        &&& after.workspace_list().len() == n + 1
        &&& after.workspace_list().drop_last() == ws
        &&& after.workspace_list().last().name_text() == new_workspace_name(before.counter())
        &&& after.workspace_list().last().is_new()
        &&& after.selected() == n
        &&& after.warning_shown() == before.warning_shown()
        &&& after.counter() == before.counter() + 1
    } else {
        &&& after.workspace_list() == ws
        &&& after.selected() == sel
        &&& after.warning_shown() == before.warning_shown()
        &&& after.counter() == before.counter()
    }
}

/// Whether the read-me panel of `w` is open after a cycle of its menu.
pub open spec fn menu_info(w: Workspace, menu: MenuInput) -> bool {
    !menu.close_all_clicked && (w.info_open() != menu.toggle_info)
}

/// One cycle of the application in which no child view closes: the tab
/// click, the selected workspace's menu, and what the application does with
/// the outcome.
pub open spec fn cycle_step(
    before: Application,
    after: Application,
    tab_clicked: Option<usize>,
    menu: MenuInput,
) -> bool {
    let ws = before.workspace_list();
    let n = ws.len() as int;
    let t = before.tab_selection(tab_clicked);
    let armed = before.confirm_at_menu(tab_clicked);
    &&& after.settings_spec() == before.settings_spec()
    &&& if armed.confirms(menu.delete_clicked) {
        if n > 1 {
            &&& after.workspace_list() == ws.remove(t)
            &&& after.selected() == clamped_after_removal(t, n)
            &&& after.warning_shown() == before.warning_shown()
            &&& after.counter() == before.counter()
        } else {
            &&& after.workspace_list().len() == 1
            &&& after.workspace_list()[0].name_text() == ws[0].name_text()
            &&& after.workspace_list()[0].confirm_state() == ConfirmDeleteState::Idle
            &&& after.workspace_list()[0].info_open() == menu_info(ws[0], menu)
            &&& menu_views(ws[0].child_views(), after.workspace_list()[0].child_views(), menu)
            &&& after.selected() == 0
            &&& after.warning_shown()
            &&& after.counter() == before.counter()
        }
    } else {
        &&& forall|j: int|
            0 <= j < n && j != t ==> #[trigger] after.workspace_list()[j] == ws[j]
        &&& after.workspace_list()[t].name_text() == ws[t].name_text()
        &&& after.workspace_list()[t].confirm_state() == armed.after_menu(menu)
        &&& after.workspace_list()[t].info_open() == menu_info(ws[t], menu)
        &&& menu_views(ws[t].child_views(), after.workspace_list()[t].child_views(), menu)
        &&& after.warning_shown() == before.warning_shown()
        &&& if menu.add_workspace_clicked {
            &&& after.workspace_list().len() == n + 1
            &&& after.workspace_list().last().name_text() == new_workspace_name(before.counter())
            &&& after.workspace_list().last().is_new()
            &&& after.selected() == n
            &&& after.counter() == before.counter() + 1
        } else {
            &&& after.workspace_list().len() == n
            &&& after.selected() == t
            &&& after.counter() == before.counter()
        }
    }
}

impl Application {
    pub closed spec fn selected(&self) -> int {
        self.selected_workspace as int
    }

    pub closed spec fn workspace_list(&self) -> Seq<Workspace> {
        self.workspaces@
    }

    /// Whether the "last workspace cannot be deleted" warning is up.
    pub closed spec fn warning_shown(&self) -> bool {
        self.show_last_workspace_delete_warning
    }

    /// The number the next new workspace is named after.
    pub closed spec fn counter(&self) -> nat {
        self.next_workspace_id_counter as nat
    }

    pub closed spec fn settings_spec(&self) -> AppSettings {
        self.settings
    }

    /// There is always a workspace, and the selected index points at one.
    pub open spec fn wf(&self) -> bool {
        &&& self.workspace_list().len() > 0
        &&& 0 <= self.selected() < self.workspace_list().len()
    }

    /// The index the tab click of a cycle leaves selected: a click on an
    /// existing tab selects it, anything else leaves the selection.
    pub open spec fn tab_selection(&self, tab_clicked: Option<usize>) -> int {
        match tab_clicked {
            Some(i) => if i < self.workspace_list().len() {
                i as int
            } else {
                self.selected()
            },
            None => self.selected(),
        }
    }

    /// The delete confirmation of the workspace whose menu runs in a cycle,
    /// as the tab click leaves it.
    pub open spec fn confirm_at_menu(&self, tab_clicked: Option<usize>) -> ConfirmDeleteState {
        if self.tab_switches(tab_clicked) {
            ConfirmDeleteState::Idle
        } else {
            self.workspace_list()[self.tab_selection(tab_clicked)].confirm_state()
        }
    }

    /// Whether the tab click of a cycle switches to a tab.
    pub open spec fn tab_switches(&self, tab_clicked: Option<usize>) -> bool {
        match tab_clicked {
            Some(i) => i < self.workspace_list().len(),
            None => false,
        }
    }

    pub fn workspace_count(&self) -> (r: usize)
        ensures
            r == self.workspace_list().len(),
    {
        self.workspaces.len()
    }

    pub fn selected_index(&self) -> (r: usize)
        ensures
            r == self.selected(),
    {
        self.selected_workspace
    }

    pub fn workspace(&self, index: usize) -> (r: &Workspace)
        requires
            index < self.workspace_list().len(),
        ensures
            *r == self.workspace_list()[index as int],
    {
        &self.workspaces[index]
    }

    pub fn show_last_workspace_delete_warning(&self) -> (r: bool)
        ensures
            r == self.warning_shown(),
    {
        self.show_last_workspace_delete_warning
    }

    pub fn next_workspace_number(&self) -> (r: usize)
        ensures
            r == self.counter(),
    {
        self.next_workspace_id_counter
    }

    pub fn settings(&self) -> (r: &AppSettings)
        ensures
            *r == self.settings_spec(),
    {
        &self.settings
    }

    /// A click on the tab of workspace `index`: it becomes the selected one,
    /// and its delete confirmation, and no other, goes back to `Idle`.
    pub fn select_workspace(&mut self, index: usize)
        requires
            old(self).wf(),
            index < old(self).workspace_list().len(),
        ensures
            final(self).wf(),
            final(self).selected() == index,
            final(self).workspace_list() == old(self).workspace_list().update(
                index as int,
                old(self).workspace_list()[index as int].with_idle(),
            ),
            final(self).warning_shown() == old(self).warning_shown(),
            final(self).counter() == old(self).counter(),
            final(self).settings_spec() == old(self).settings_spec(),
    {
        self.workspaces[index].reset_confirm_delete();
        self.selected_workspace = index;
    }

    /// Brings the selected index back into the list, should it have left it.
    pub fn clamp_selection(&mut self)
        requires
            old(self).workspace_list().len() > 0,
        ensures
            final(self).wf(),
            final(self).selected() == (if old(self).selected() < old(self).workspace_list().len() {
                old(self).selected()
            } else {
                old(self).workspace_list().len() - 1
            }),
            final(self).workspace_list() == old(self).workspace_list(),
            final(self).warning_shown() == old(self).warning_shown(),
            final(self).counter() == old(self).counter(),
            final(self).settings_spec() == old(self).settings_spec(),
    {
        let last = self.workspaces.len() - 1;
        if self.selected_workspace > last {
            self.selected_workspace = last;
        }
    }

    /// Lends the selected workspace to the host, which draws its views.
    pub fn selected_workspace_mut(&mut self) -> (r: &mut Workspace)
        requires
            old(self).wf(),
        ensures
            final(self).wf(),
            *r == old(self).workspace_list()[old(self).selected()],
            final(self).workspace_list() == old(self).workspace_list().update(
                old(self).selected(),
                *final(r),
            ),
            final(self).selected() == old(self).selected(),
            final(self).warning_shown() == old(self).warning_shown(),
            final(self).counter() == old(self).counter(),
            final(self).settings_spec() == old(self).settings_spec(),
    {
        let i = self.selected_workspace;
        &mut self.workspaces[i]
    }

    /// Runs the side menu of the selected workspace for one cycle, and hands
    /// back its `open` flag and its action.
    pub fn run_selected_menu(&mut self, menu: &MenuInput) -> (r: (bool, WorkspaceAction))
        requires
            old(self).wf(),
        ensures
            final(self).wf(),
            final(self).workspace_list().len() == old(self).workspace_list().len(),
            menu_step(
                old(self).workspace_list()[old(self).selected()],
                final(self).workspace_list()[old(self).selected()],
                true,
                r.0,
                *menu,
                r.1,
            ),
            forall|j: int|
                0 <= j < old(self).workspace_list().len() && j != old(self).selected()
                    ==> #[trigger] final(self).workspace_list()[j] == old(self).workspace_list()[j],
            final(self).selected() == old(self).selected(),
            final(self).warning_shown() == old(self).warning_shown(),
            final(self).counter() == old(self).counter(),
            final(self).settings_spec() == old(self).settings_spec(),
    {
        let i = self.selected_workspace;
        let mut open = true;
        let action = self.workspaces[i].ui(&mut open, menu);
        (open, action)
    }

    /// Acts on what the selected workspace reported: a confirmed delete
    /// removes it, unless it is the only one, in which case its confirmation
    /// is reset and the warning shown; otherwise an add request appends a
    /// new workspace named after the counter and selects it.
    pub fn apply_workspace_outcome(&mut self, open: bool, action: WorkspaceAction)
        requires
            old(self).wf(),
            open && action == WorkspaceAction::AddWorkspace ==> old(self).counter() < usize::MAX,
        ensures
            final(self).wf(),
            outcome_step(*old(self), *final(self), open, action),
    {
        let n = self.workspaces.len();
        let i = self.selected_workspace;
        if !open {
            if n > 1 {
                self.workspaces.remove(i);
                let last = self.workspaces.len() - 1;
                if self.selected_workspace > last {
                    self.selected_workspace = last;
                }
            } else {
                self.workspaces[i].reset_confirm_delete();
                self.show_last_workspace_delete_warning = true;
            }
        } else {
            match action {
                WorkspaceAction::AddWorkspace => {
                    let mut name = String::from_str(NEW_WORKSPACE_PREFIX);
                    let digits = decimal_text(self.next_workspace_id_counter);
                    name.append(digits.as_str());
                    self.workspaces.push(Workspace::new_with_name(name));
                    self.next_workspace_id_counter = self.next_workspace_id_counter + 1;
                    self.selected_workspace = self.workspaces.len() - 1;
                    proof {
                        assert(self.workspaces@.drop_last() =~= old(self).workspaces@);
                    }
                },
                WorkspaceAction::NoAction => {},
            }
        }
    }

    /// One cycle in which no child view closes: a click on an existing tab
    /// selects it, then the selected workspace's menu runs and the
    /// application acts on its outcome.
    pub fn update(&mut self, tab_clicked: Option<usize>, menu: &MenuInput)
        requires
            old(self).wf(),
            menu.add_workspace_clicked ==> old(self).counter() < usize::MAX,
        ensures
            final(self).wf(),
            cycle_step(*old(self), *final(self), tab_clicked, *menu),
    {
        let ghost ws = self.workspaces@;
        let ghost t = old(self).tab_selection(tab_clicked);
        match tab_clicked {
            Some(i) => {
                if i < self.workspaces.len() {
                    proof {
                        ws[i as int].lemma_with_idle();
                    }
                    self.select_workspace(i);
                }
            },
            None => {},
        }
        let ghost mid1 = self.workspaces@;
        assert(forall|j: int| 0 <= j < ws.len() && j != t ==> mid1[j] == ws[j]);
        assert(mid1[t].confirm_state() == old(self).confirm_at_menu(tab_clicked));
        assert(mid1[t].name_text() == ws[t].name_text());
        let (open, action) = self.run_selected_menu(menu);
        let ghost mid2 = self.workspaces@;
        proof {
            mid2[t].lemma_with_idle();
        }
        self.apply_workspace_outcome(open, action);
        proof {
            let after = self.workspaces@;
            if !open && ws.len() > 1 {
                assert(after =~= ws.remove(t));
            }
            if open && action == WorkspaceAction::AddWorkspace {
                assert(after.drop_last() == mid2);
                assert forall|j: int| 0 <= j < ws.len() && j != t implies #[trigger] after[j] == ws[j] by {
                    assert(after.drop_last()[j] == after[j]);
                }
                assert(after.drop_last()[t] == after[t]);
            }
        }
    }

    /// The user acknowledged the warning, by its button or its close control.
    pub fn acknowledge_warning(&mut self)
        requires
            old(self).wf(),
        ensures
            final(self).wf(),
            !final(self).warning_shown(),
            final(self).workspace_list() == old(self).workspace_list(),
            final(self).selected() == old(self).selected(),
            final(self).counter() == old(self).counter(),
            final(self).settings_spec() == old(self).settings_spec(),
    {
        self.show_last_workspace_delete_warning = false;
    }
}

} // verus!

verus! {

/// A run of cycles that each only click "add workspace" grows the list by
/// exactly one workspace per cycle, and each cycle selects the workspace it
/// added.
pub proof fn lemma_adds_grow_by_one(states: Seq<Application>, menus: Seq<MenuInput>)
    requires
        states.len() == menus.len() + 1,
        forall|i: int|
            0 <= i < menus.len() ==> {
                &&& (#[trigger] menus[i]).add_workspace_clicked
                &&& !menus[i].delete_clicked
                &&& cycle_step(states[i], states[i + 1], None, menus[i])
            },
    ensures
        forall|i: int|
            0 <= i < states.len() ==> (#[trigger] states[i]).workspace_list().len()
                == states[0].workspace_list().len() + i,
        forall|i: int|
            0 < i < states.len() ==> (#[trigger] states[i]).selected() == states[i].workspace_list().len() - 1,
    decreases menus.len(),
{
    if menus.len() > 0 {
        let k = menus.len() - 1;
        lemma_adds_grow_by_one(states.drop_last(), menus.drop_last());
        assert forall|i: int| 0 <= i < states.len() implies (#[trigger] states[i]).workspace_list().len()
            == states[0].workspace_list().len() + i by {
            if i < states.len() - 1 {
                assert(states.drop_last()[i] == states[i]);
            } else {
                assert(menus[k].add_workspace_clicked);
                assert(states.drop_last()[k] == states[k]);
            }
        }
        assert forall|i: int| 0 < i < states.len() implies (#[trigger] states[i]).selected()
            == states[i].workspace_list().len() - 1 by {
            if i < states.len() - 1 {
                assert(states.drop_last()[i] == states[i]);
            } else {
                assert(menus[k].add_workspace_clicked);
            }
        }
    }
}

/// A confirmed delete of the only workspace keeps it: the list still holds
/// one workspace, its confirmation is back at `Idle`, and the warning is up.
pub proof fn lemma_last_workspace_kept(
    before: Application,
    after: Application,
    tab_clicked: Option<usize>,
    menu: MenuInput,
)
    requires
        before.wf(),
        before.workspace_list().len() == 1,
        cycle_step(before, after, tab_clicked, menu),
        before.confirm_at_menu(tab_clicked).confirms(menu.delete_clicked),
    ensures
        after.workspace_list().len() == 1,
        after.workspace_list()[0].confirm_state() == ConfirmDeleteState::Idle,
        after.warning_shown(),
{
}

} // verus!
