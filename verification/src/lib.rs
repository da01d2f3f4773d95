pub mod resolve;
pub mod url;
