//! View model of a terminal client that pages through search results.

pub mod params;
pub mod text;
pub mod seen;
pub mod results;
pub mod browser;
pub mod amount;
pub mod session;

pub use params::Params;
pub use results::{Category, Link, Response};
pub use seen::SeenSet;
pub use browser::App;
pub use session::{Action, Key, Mode, Session};
