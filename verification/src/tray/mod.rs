//! What the tray shows for each state and what its menu asks for.

pub mod icon;
pub mod icons;

pub use icon::{get_icon_path, menu_action, tooltip, MenuAction, TrayManager, TrayUpdate, TRAY_ID};
pub use icons::{
    draw_circle, draw_rect, generate_mic_icon, idle_icon, processing_icon, recording_icon, Icon,
    Shape, ICON_SIZE,
};
