pub mod error;
pub mod number;
pub mod response;
pub mod routing;
pub mod session;
pub mod settings;
pub mod state;
pub mod text;
