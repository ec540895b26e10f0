use vstd::prelude::*;

verus! {

/// Which window gets focus when the session is attached: a window index,
/// a window name, or no preference.
#[derive(Debug, Clone)]
pub enum StartupWindow {
    Index(usize),
    Name(String),
    Unset,
}

impl Default for StartupWindow {
    /// By default no startup window is selected.
    fn default() -> (r: Self)
        ensures
            r is Unset,
    {
        StartupWindow::Unset
    }
}

/// Selects the session-launch template. This layer passes the value through
/// untouched; rendering belongs to the surrounding system.
#[derive(Debug, Clone)]
pub enum ProjectTemplate {
    Default,
    Raw(String),
    File(String),
}

impl Default for ProjectTemplate {
    /// The built-in template is used unless the document selects another.
    fn default() -> (r: Self)
        ensures
            r is Default,
    {
        ProjectTemplate::Default
    }
}

} // verus!
