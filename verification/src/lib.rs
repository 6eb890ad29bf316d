//! Model of the interactive terminal front end of a podcast manager:
//! the three-panel navigation state machine, the scroll/resize geometry
//! engine, the input dispatch from logical user actions to the intents
//! sent to the controller, the destructive-action confirmation
//! protocol, and the details formatter.

pub mod details;
pub mod menu;
pub mod notify;
pub mod popup;
pub mod sanitize;
pub mod types;
pub mod ui;

pub use types::ActivePanel;
pub use types::Details;
pub use types::Episode;
pub use types::FilterType;
pub use types::Podcast;
pub use types::Scroll;
pub use types::UiMsg;
pub use types::UserAction;
pub use ui::Dispatched;
pub use ui::PromptRequest;
pub use ui::Ui;
