pub mod env;
