use vstd::prelude::*;

use crate::errors::ValidationError;
use crate::ident::is_valid_identifier;
use crate::ident::valid_tmux_identifier;

verus! {

/// A window of the session. This layer only reads its optional name, for
/// startup-window matching and for the per-window check; everything else
/// about a window belongs to the surrounding system.
#[derive(Debug, Clone)]
pub struct Window {
    pub name: Option<String>,
}

impl Window {
    /// A window is well formed when its name, if it has one, is a valid
    /// tmux identifier.
    pub open spec fn wf(self) -> bool {
        self.name matches Some(n) ==> is_valid_identifier(n@)
    }

    /// Checks this window's own invariant: a present name must be a valid
    /// tmux identifier.
    pub fn check(&self) -> (r: Result<(), ValidationError>)
        ensures
            r is Ok <==> self.wf(),
            r matches Err(e) ==> e matches ValidationError::InvalidWindowName(n)
                && self.name matches Some(m) && n@ == m@,
    {
        match &self.name {
            Option::None => Ok(()),
            Option::Some(name) => {
                if valid_tmux_identifier(name.as_str()) {
                    Ok(())
                } else {
                    Err(ValidationError::InvalidWindowName(name.clone()))
                }
            },
        }
    }
}

impl Default for Window {
    /// The default window: unnamed.
    fn default() -> (r: Self)
        ensures
            r.name is None,
    {
        Window { name: Option::None }
    }
}

} // verus!
