use vstd::prelude::*;

use crate::command_list::CommandList;
use crate::errors::DecodeError;
use crate::errors::ValidationError;
use crate::ident::is_valid_identifier;
use crate::ident::valid_tmux_identifier;
use crate::startup_window::ProjectTemplate;
use crate::startup_window::StartupWindow;
use crate::window::Window;

verus! {

/// The canonical, fully resolved session descriptor.
#[derive(Debug, Clone)]
pub struct Project {
    pub session_name: Option<String>,
    pub tmux_command: Option<String>,
    pub tmux_options: Option<String>,
    pub tmux_socket: Option<String>,
    pub working_dir: Option<String>,
    pub window_base_index: usize,
    pub pane_base_index: usize,
    pub startup_window: StartupWindow,
    pub startup_pane: Option<usize>,
    pub on_start: Vec<String>,
    pub on_first_start: Vec<String>,
    pub on_restart: Vec<String>,
    pub on_exit: Vec<String>,
    pub on_stop: Vec<String>,
    pub on_create: Vec<String>,
    pub post_create: Vec<String>,
    pub on_pane_create: Vec<String>,
    pub post_pane_create: Vec<String>,
    pub pane_commands: Vec<String>,
    pub attach: bool,
    pub template: ProjectTemplate,
    pub windows: Vec<Window>,
}

/// The global tool configuration handed in by the surrounding command-line
/// context; it may carry an override for the multiplexer executable.
#[derive(Debug, Clone)]
pub struct Config {
    pub tmux_command: Option<String>,
}

/// The shape the `windows` field may take in a raw document: missing, an
/// explicit empty value, one window, or a list of windows.
pub enum RawWindows {
    Absent,
    Empty,
    Single(Window),
    Many(Vec<Window>),
}

/// A raw configuration document, after field aliases have been folded to
/// their canonical spellings but before defaults, the attach/detached pair,
/// and the loose field shapes are resolved.
pub struct RawProject {
    pub session_name: Option<String>,
    pub tmux_command: Option<String>,
    pub tmux_options: Option<String>,
    pub tmux_socket: Option<String>,
    pub working_dir: Option<String>,
    pub window_base_index: Option<usize>,
    pub pane_base_index: Option<usize>,
    pub startup_window: StartupWindow,
    pub startup_pane: Option<usize>,
    pub on_start: CommandList,
    pub on_first_start: CommandList,
    pub on_restart: CommandList,
    pub on_exit: CommandList,
    pub on_stop: CommandList,
    pub on_create: CommandList,
    pub post_create: CommandList,
    pub on_pane_create: CommandList,
    pub post_pane_create: CommandList,
    pub pane_commands: CommandList,
    pub attach: Option<bool>,
    pub detached: Option<bool>,
    pub template: ProjectTemplate,
    pub windows: RawWindows,
}

/// The window a document gets when it names none.
pub open spec fn default_window() -> Window {
    Window { name: Option::None }
}

/// A missing base index falls back to 1.
pub open spec fn resolved_base(b: Option<usize>) -> usize {
    match b {
        Option::Some(x) => x,
        Option::None => 1,
    }
}

/// The single attach flag that the `attach`/`detached` pair resolves to,
/// when not both are present: `attach` wins if given, else the negation of
/// `detached`, else true.
pub open spec fn resolved_attach(attach: Option<bool>, detached: Option<bool>) -> bool {
    match attach {
        Option::Some(a) => a,
        Option::None => match detached {
            Option::Some(d) => !d,
            Option::None => true,
        },
    }
}

/// With only a `detached` field given, the decoded attach flag is its
/// negation; with neither spelling given, attaching is the default.
pub proof fn lemma_detached_negation(d: bool)
    ensures
        resolved_attach(Option::None, Option::Some(d)) == !d,
        resolved_attach(Option::None, Option::None) == true,
{
}

/// The window sequence a raw `windows` field stands for: a missing or
/// explicitly empty field yields the single default window, never an empty
/// sequence.
pub open spec fn resolved_windows(w: RawWindows) -> Seq<Window> {
    match w {
        RawWindows::Absent => seq![default_window()],
        RawWindows::Empty => seq![default_window()],
        RawWindows::Single(win) => seq![win],
        RawWindows::Many(v) => if v@.len() == 0 {
            seq![default_window()]
        } else {
            v@
        },
    }
}

/// Whatever shape the raw `windows` field takes, decoding yields at least
/// one window; a field that is absent altogether yields exactly the one
/// default window.
pub proof fn lemma_windows_never_empty(w: RawWindows)
    ensures
        resolved_windows(w).len() >= 1,
        w is Absent ==> resolved_windows(w) == seq![default_window()],
{
}

/// The all-defaults Project that an entirely absent document decodes to.
pub open spec fn is_default_project(p: Project) -> bool {
    &&& p.session_name is None
    &&& p.tmux_command is None
    &&& p.tmux_options is None
    &&& p.tmux_socket is None
    &&& p.working_dir is None
    &&& p.window_base_index == 1
    &&& p.pane_base_index == 1
    &&& p.startup_window is Unset
    &&& p.startup_pane is None
    &&& p.on_start@ == Seq::<String>::empty()
    &&& p.on_first_start@ == Seq::<String>::empty()
    &&& p.on_restart@ == Seq::<String>::empty()
    &&& p.on_exit@ == Seq::<String>::empty()
    &&& p.on_stop@ == Seq::<String>::empty()
    &&& p.on_create@ == Seq::<String>::empty()
    &&& p.post_create@ == Seq::<String>::empty()
    &&& p.on_pane_create@ == Seq::<String>::empty()
    &&& p.post_pane_create@ == Seq::<String>::empty()
    &&& p.pane_commands@ == Seq::<String>::empty()
    &&& p.attach == true
    &&& p.template is Default
    &&& p.windows@ == seq![default_window()]
}

impl Default for Project {
    /// The all-defaults Project: no optional field set, base indexes 1,
    /// attach on, and the single default window.
    fn default() -> (r: Self)
        ensures
            is_default_project(r),
    {
        let mut windows: Vec<Window> = Vec::new();
        windows.push(Window { name: Option::None });
        let r = Project {
            session_name: Option::None,
            tmux_command: Option::None,
            tmux_options: Option::None,
            tmux_socket: Option::None,
            working_dir: Option::None,
            window_base_index: 1,
            pane_base_index: 1,
            startup_window: StartupWindow::Unset,
            startup_pane: Option::None,
            on_start: Vec::new(),
            on_first_start: Vec::new(),
            on_restart: Vec::new(),
            on_exit: Vec::new(),
            on_stop: Vec::new(),
            on_create: Vec::new(),
            post_create: Vec::new(),
            on_pane_create: Vec::new(),
            post_pane_create: Vec::new(),
            pane_commands: Vec::new(),
            attach: true,
            template: ProjectTemplate::Default,
            windows,
        };
        proof {
            assert(r.windows@ =~= seq![default_window()]);
        }
        r
    }
}

/// Resolves a raw configuration document into the canonical Project: an
/// absent document yields the all-defaults Project; otherwise aliases are
/// already folded, loose field shapes are normalized, defaults applied, and
/// the `attach`/`detached` pair reconciled — supplying both is a decode
/// error whatever their values.
pub fn decode(doc: Option<RawProject>) -> (r: Result<Project, DecodeError>)
    ensures
        doc is None ==> (r matches Ok(p) && is_default_project(p)),
        doc matches Some(d) ==> {
            &&& r is Err <==> d.attach is Some && d.detached is Some
            &&& r matches Err(e) ==> e is AttachAndDetached
            &&& r matches Ok(p) ==> {
                &&& p.session_name == d.session_name
                &&& p.tmux_command == d.tmux_command
                &&& p.tmux_options == d.tmux_options
                &&& p.tmux_socket == d.tmux_socket
                &&& p.working_dir == d.working_dir
                &&& p.window_base_index == resolved_base(d.window_base_index)
                &&& p.pane_base_index == resolved_base(d.pane_base_index)
                &&& p.startup_window == d.startup_window
                &&& p.startup_pane == d.startup_pane
                &&& p.on_start@ == d.on_start.normalized()
                &&& p.on_first_start@ == d.on_first_start.normalized()
                &&& p.on_restart@ == d.on_restart.normalized()
                &&& p.on_exit@ == d.on_exit.normalized()
                &&& p.on_stop@ == d.on_stop.normalized()
                &&& p.on_create@ == d.on_create.normalized()
                &&& p.post_create@ == d.post_create.normalized()
                &&& p.on_pane_create@ == d.on_pane_create.normalized()
                &&& p.post_pane_create@ == d.post_pane_create.normalized()
                &&& p.pane_commands@ == d.pane_commands.normalized()
                &&& p.attach == resolved_attach(d.attach, d.detached)
                &&& p.template == d.template
                &&& p.windows@ == resolved_windows(d.windows)
            }
        },
        r matches Ok(p) ==> p.windows@.len() >= 1,
{
    match doc {
        Option::None => Ok(Project::default()),
        Option::Some(d) => {
            let attach: bool = match (d.attach, d.detached) {
                (Option::Some(_), Option::Some(_)) => {
                    return Err(DecodeError::AttachAndDetached);
                },
                (Option::Some(a), Option::None) => a,
                (Option::None, Option::Some(det)) => !det,
                (Option::None, Option::None) => true,
            };
            let window_base_index: usize = match d.window_base_index {
                Option::Some(x) => x,
                Option::None => 1,
            };
            let pane_base_index: usize = match d.pane_base_index {
                Option::Some(x) => x,
                Option::None => 1,
            };
            let windows: Vec<Window> = match d.windows {
                RawWindows::Absent => {
                    let mut v: Vec<Window> = Vec::new();
                    v.push(Window { name: Option::None });
                    v
                },
                RawWindows::Empty => {
                    let mut v: Vec<Window> = Vec::new();
                    v.push(Window { name: Option::None });
                    v
                },
                RawWindows::Single(win) => {
                    let mut v: Vec<Window> = Vec::new();
                    v.push(win);
                    v
                },
                RawWindows::Many(v) => {
                    if v.len() == 0 {
                        let mut w: Vec<Window> = Vec::new();
                        w.push(Window { name: Option::None });
                        w
                    } else {
                        v
                    }
                },
            };
            proof {
                assert(windows@ =~= resolved_windows(d.windows));
            }
            Ok(Project {
                session_name: d.session_name,
                tmux_command: d.tmux_command,
                tmux_options: d.tmux_options,
                tmux_socket: d.tmux_socket,
                working_dir: d.working_dir,
                window_base_index,
                pane_base_index,
                startup_window: d.startup_window,
                startup_pane: d.startup_pane,
                on_start: d.on_start.normalize(),
                on_first_start: d.on_first_start.normalize(),
                on_restart: d.on_restart.normalize(),
                on_exit: d.on_exit.normalize(),
                on_stop: d.on_stop.normalize(),
                on_create: d.on_create.normalize(),
                post_create: d.post_create.normalize(),
                on_pane_create: d.on_pane_create.normalize(),
                post_pane_create: d.post_pane_create.normalize(),
                pane_commands: d.pane_commands.normalize(),
                attach,
                template: d.template,
                windows,
            })
        },
    }
}

/// Does window `w` carry the name `n`?
pub open spec fn window_named(w: Window, n: Seq<char>) -> bool {
    w.name matches Some(m) && m@ == n
}

impl Project {
    /// The session name, if set, is a valid tmux identifier.
    pub open spec fn session_name_ok(self) -> bool {
        self.session_name matches Some(n) ==> is_valid_identifier(n@)
    }

    /// The startup window, if selected, resolves against this project: an
    /// index lies in `[window_base_index, window_base_index + |windows|)`,
    /// a name matches at least one window.
    pub open spec fn startup_window_ok(self) -> bool {
        match self.startup_window {
            StartupWindow::Index(i) => self.window_base_index <= i
                < self.window_base_index + self.windows@.len(),
            StartupWindow::Name(n) => exists|j: int|
                0 <= j < self.windows@.len() && window_named(#[trigger] self.windows@[j], n@),
            StartupWindow::Unset => true,
        }
    }

    /// Every window passes its own check.
    pub open spec fn windows_ok(self) -> bool {
        forall|j: int| 0 <= j < self.windows@.len() ==> (#[trigger] self.windows@[j]).wf()
    }

    /// All of the cross-field invariants, with the filesystem's answer for
    /// `working_dir` supplied as `working_dir_ok`.
    pub open spec fn valid_with(self, working_dir_ok: bool) -> bool {
        &&& self.session_name_ok()
        &&& self.startup_window_ok()
        &&& self.working_dir is Some ==> working_dir_ok
        &&& self.windows_ok()
    }

    /// Fills in what only the surrounding command-line context knows: the
    /// session name falls back to the caller's project name, a forced
    /// attach override wins over the decoded flag, and the multiplexer
    /// command is taken from the global configuration, or defaults to
    /// "tmux" if still unset.
    pub fn prepare(self, config: &Config, project_name: &str, force_attach: Option<bool>) -> (r:
        Self)
        ensures
            self.session_name is Some ==> r.session_name == self.session_name,
            self.session_name is None ==> (r.session_name matches Some(n)
                && n@ == project_name@),
            r.attach == (match force_attach {
                Option::Some(a) => a,
                Option::None => self.attach,
            }),
            config.tmux_command matches Some(c) ==> (r.tmux_command matches Some(rc)
                && rc@ == c@),
            config.tmux_command is None && self.tmux_command is Some ==> r.tmux_command
                == self.tmux_command,
            config.tmux_command is None && self.tmux_command is None ==> (
            r.tmux_command matches Some(rc) && rc@ == "tmux"@),
            r.tmux_options == self.tmux_options,
            r.tmux_socket == self.tmux_socket,
            r.working_dir == self.working_dir,
            r.window_base_index == self.window_base_index,
            r.pane_base_index == self.pane_base_index,
            r.startup_window == self.startup_window,
            r.startup_pane == self.startup_pane,
            r.on_start == self.on_start,
            r.on_first_start == self.on_first_start,
            r.on_restart == self.on_restart,
            r.on_exit == self.on_exit,
            r.on_stop == self.on_stop,
            r.on_create == self.on_create,
            r.post_create == self.post_create,
            r.on_pane_create == self.on_pane_create,
            r.post_pane_create == self.post_pane_create,
            r.pane_commands == self.pane_commands,
            r.template == self.template,
            r.windows == self.windows,
    {
        let mut project = self;
        if project.session_name.is_none() {
            project.session_name = Option::Some(String::from_str(project_name));
        }
        if let Option::Some(attach) = force_attach {
            project.attach = attach;
        }
        match &config.tmux_command {
            Option::Some(tmux_command) => {
                project.tmux_command = Option::Some(tmux_command.clone());
            },
            Option::None => {
                if project.tmux_command.is_none() {
                    project.tmux_command = Option::Some(String::from_str("tmux"));
                }
            },
        }
        project
    }

    /// Checks the cross-field invariants, with the filesystem's verdict on
    /// `working_dir` handed in as `working_dir_ok`. Checks run in order —
    /// session name, startup window, working directory, then each window in
    /// turn — and the first failure is returned.
    pub fn check_with_dir(&self, working_dir_ok: bool) -> (r: Result<(), ValidationError>)
        ensures
            r is Ok <==> self.valid_with(working_dir_ok),
            !self.session_name_ok() ==> (r matches Err(ValidationError::InvalidSessionName(n))
                && self.session_name matches Some(m) && n@ == m@),
            self.session_name_ok() && !self.startup_window_ok() ==> (match self.startup_window {
                StartupWindow::Index(i) => r == Result::<(), ValidationError>::Err(
                    ValidationError::StartupWindowIndexNotFound(i),
                ),
                StartupWindow::Name(nm) => r matches Err(
                    ValidationError::StartupWindowNameNotFound(n),
                ) && n@ == nm@,
                StartupWindow::Unset => false,
            }),
            self.session_name_ok() && self.startup_window_ok() && !working_dir_ok
                && self.working_dir is Some ==> (r matches Err(
                ValidationError::WorkingDirNotFound(n),
            ) && self.working_dir matches Some(d) && n@ == d@),
            self.session_name_ok() && self.startup_window_ok() && (self.working_dir is Some
                ==> working_dir_ok) && !self.windows_ok() ==> (r matches Err(
                ValidationError::InvalidWindowName(n),
            ) && exists|j: int|
                {
                    &&& 0 <= j < self.windows@.len()
                    &&& !(#[trigger] self.windows@[j]).wf()
                    &&& forall|k: int| 0 <= k < j ==> (#[trigger] self.windows@[k]).wf()
                    &&& self.windows@[j].name matches Some(m) && n@ == m@
                }),
    {
        if let Option::Some(session_name) = &self.session_name {
            if !valid_tmux_identifier(session_name.as_str()) {
                return Err(ValidationError::InvalidSessionName(session_name.clone()));
            }
        }
        match &self.startup_window {
            StartupWindow::Index(index) => {
                if *index < self.window_base_index || *index - self.window_base_index
                    >= self.windows.len() {
                    return Err(ValidationError::StartupWindowIndexNotFound(*index));
                }
            },
            StartupWindow::Name(name) => {
                if !find_window_named(&self.windows, name) {
                    return Err(ValidationError::StartupWindowNameNotFound(name.clone()));
                }
            },
            StartupWindow::Unset => {},
        }
        if let Option::Some(dir) = &self.working_dir {
            if !working_dir_ok {
                return Err(ValidationError::WorkingDirNotFound(dir.clone()));
            }
        }
        let mut i: usize = 0;
        while i < self.windows.len()
            invariant
                0 <= i <= self.windows@.len(),
                forall|j: int| 0 <= j < i ==> (#[trigger] self.windows@[j]).wf(),
                self.session_name_ok(),
                self.startup_window_ok(),
                self.working_dir is Some ==> working_dir_ok,
            decreases self.windows@.len() - i,
        {
            match self.windows[i].check() {
                Result::Err(e) => {
                    proof {
                        let j = i as int;
                        assert(0 <= j < self.windows@.len() && !self.windows@[j].wf() && (forall|
                            k: int,
                        | 0 <= k < j ==> (#[trigger] self.windows@[k]).wf()));
                    }
                    return Err(e);
                },
                Result::Ok(()) => {},
            }
            i = i + 1;
        }
        Ok(())
    }

    /// Checks the cross-field invariants of a decoded project: identifier
    /// validity, startup-window resolvability, working-directory existence
    /// (the one filesystem touch in this layer), and every window's own
    /// check, stopping at the first failure.
    pub fn check(&self) -> (r: Result<(), ValidationError>)
        ensures
            r is Ok ==> self.session_name_ok() && self.startup_window_ok() && self.windows_ok(),
            self.working_dir is None ==> (r is Ok <==> self.session_name_ok()
                && self.startup_window_ok() && self.windows_ok()),
            !self.session_name_ok() ==> (r matches Err(ValidationError::InvalidSessionName(n))
                && self.session_name matches Some(m) && n@ == m@),
            self.session_name_ok() && !self.startup_window_ok() ==> (match self.startup_window {
                StartupWindow::Index(i) => r == Result::<(), ValidationError>::Err(
                    ValidationError::StartupWindowIndexNotFound(i),
                ),
                StartupWindow::Name(nm) => r matches Err(
                    ValidationError::StartupWindowNameNotFound(n),
                ) && n@ == nm@,
                StartupWindow::Unset => false,
            }),
            r matches Err(ValidationError::WorkingDirNotFound(n)) ==> (self.working_dir
                matches Some(d) && n@ == d@ && self.session_name_ok()
                && self.startup_window_ok()),
    {
        let working_dir_ok: bool = match &self.working_dir {
            Option::Some(dir) => path_is_dir(dir.as_str()),
            Option::None => true,
        };
        self.check_with_dir(working_dir_ok)
    }
}

/// Decides whether any window in the list carries the name `name`.
fn find_window_named(windows: &Vec<Window>, name: &String) -> (found: bool)
    ensures
        found <==> exists|j: int|
            0 <= j < windows@.len() && window_named(#[trigger] windows@[j], name@),
{
    let mut i: usize = 0;
    while i < windows.len()
        invariant
            0 <= i <= windows@.len(),
            forall|j: int| 0 <= j < i ==> !window_named(#[trigger] windows@[j], name@),
        decreases windows@.len() - i,
    {
        match &windows[i].name {
            Option::Some(window_name) => {
                if window_name.eq(name) {
                    return true;
                }
            },
            Option::None => {},
        }
        i = i + 1;
    }
    false
}

/// Relies on std::path::Path::is_dir for the one filesystem question this
/// layer asks: whether `path` names an existing directory. The answer
/// depends on the machine's disk at the moment of the call, so nothing is
/// promised of it.
#[verifier::external_body]
fn path_is_dir(path: &str) -> bool {
    std::path::Path::new(path).is_dir()
}

/// After decoding, a project whose startup window is given by index — and
/// whose other invariants hold — passes validation exactly when the index
/// lies in `[window_base_index, window_base_index + |windows|)`.
pub proof fn lemma_check_startup_index(p: Project, i: usize, working_dir_ok: bool)
    requires
        p.session_name_ok(),
        p.windows_ok(),
        p.working_dir is Some ==> working_dir_ok,
        p.startup_window == StartupWindow::Index(i),
    ensures
        p.valid_with(working_dir_ok) <==> p.window_base_index <= i < p.window_base_index
            + p.windows@.len(),
{
}

} // verus!
