//! Verified core of grafica-ide: tab identities, the editor-to-canvas
//! debounce pipeline, the recent-files list, settings change reporting,
//! the ribbon's clock and modal state, and the startup banner text.

pub mod tabs;
pub mod canvas;
pub mod project;
pub mod settings;
pub mod ribbon;
pub mod system_info;
