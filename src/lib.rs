//! A multi-workspace application shell: workspaces that host child views in
//! floating windows, a two-step delete confirmation per workspace, and a guard
//! that keeps the last workspace from being deleted.
//!
//! Drawing is left to the host; the types here hold the state and decide
//! every transition from the clicks the host reports.

pub mod app;
pub mod json;
pub mod removal;
pub mod views;
pub mod workspace;

pub use app::{AppSettings, Application, CornerRadius};
pub use views::info::Info;
pub use views::sqlitedata::{Customer, SqliteData};
pub use views::testwindow::TestWindow;
pub use views::{ChildView, ViewKind};
pub use workspace::{ConfirmDeleteState, MenuInput, Workspace, WorkspaceAction};
