//! The components' logic, one module per widget.

pub mod alert;
pub mod carousel;
pub mod input;
pub mod modal;
pub mod select;
pub mod sidenav;
pub mod spinner;
pub mod switch;

pub use alert::{alert_class, AlertType};
pub use carousel::CarouselImage;
pub use input::{input_class, InputType};
pub use modal::{ModalCommand, ModalEvent, ModalState};
pub use select::{find_option, SelectError};
pub use sidenav::{sidenav_options, SidenavOptions};
pub use spinner::{spinner_class, SpinnerSize};
pub use switch::switch_class;
