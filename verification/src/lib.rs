pub mod builder;
pub mod model;
pub mod state;

pub use builder::Item;
pub use builder::ItemBuilder;
pub use state::Filled;
pub use state::StateMarker;
pub use state::Unset;
pub use state::is_set;
