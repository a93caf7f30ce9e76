//! The window-manager client: the notification taxonomy the automation
//! engine consumes, the models of the manager's query replies, and the
//! per-request socket protocol.

pub mod events;
pub mod models;
pub mod socket;

pub use events::ApplicationEvent;
pub use events::DisplayEvent;
pub use events::Event;
pub use events::EventError;
pub use events::MissionControlEvent;
pub use events::SpaceEvent;
pub use events::WindowEvent;
pub use models::Space;
pub use models::Window;
pub use socket::Socket;
