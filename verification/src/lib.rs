pub mod command_list;
pub mod errors;
pub mod ident;
pub mod invocation;
pub mod project;
pub mod startup_window;
pub mod window;
