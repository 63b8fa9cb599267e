//! What the windows show, and what follows from what the user does in them.

pub mod launch_flow;
pub mod launcher_window;
pub mod main_view;
pub mod native_login_window;
pub mod patcher_window;
pub mod settings_window;
pub mod sizes;
pub mod theme;
