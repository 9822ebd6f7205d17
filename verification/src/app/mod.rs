//! Application state and the rules that change it.

pub mod actions;
pub mod effect;
pub mod laws;
pub mod list;
pub mod overlay;
pub mod panel;

pub use self::effect::{Effect, EffectView};
pub use self::list::ListSelection;
pub use self::overlay::{
    default_palette_commands, ContextMenu, ContextMenuItem, Dialog, DialogAction, DialogType,
    Notification, PaletteCommand,
};
pub use self::panel::{AsyncOp, DiffMode, InputMode, NotificationType, PanelFocus};
pub mod state;
pub use self::state::{App, AppView};
