use vstd::prelude::*;

use crate::errors::AssemblyError;
use crate::project::Project;

verus! {

/// The views of a sequence of strings.
pub open spec fn views_of(v: Seq<String>) -> Seq<Seq<char>> {
    v.map_values(|s: String| s@)
}

/// The words that POSIX-shell splitting yields for `s`, or `None` when `s`
/// cannot be split (an unmatched quote). What the splitter returns depends
/// on the characters of `s` alone.
pub uninterp spec fn shell_split(s: Seq<char>) -> Option<Seq<Seq<char>>>;

/// The shell-safe single token that quoting `s` yields: re-parsed by a
/// POSIX shell it reproduces `s` literally. The result depends on the
/// characters of `s` alone.
pub uninterp spec fn shell_quote(s: Seq<char>) -> Seq<char>;

/// Relies on shell_words::split: splits a command line into words by the
/// parsing rules of the POSIX shell (quote removal only, no expansions),
/// failing exactly on an unmatched quote; a pure function of the string.
/// An empty string splits into no words.
#[verifier::external_body]
fn split_words(s: &str) -> (r: Option<Vec<String>>)
    ensures
        r is Some <==> shell_split(s@) is Some,
        r matches Some(v) ==> (shell_split(s@) matches Some(t) && views_of(v@) == t),
{
    match shell_words::split(s) {
        Ok(v) => Some(v),
        Err(_) => None,
    }
}

/// Relies on shell_words::quote: renders a string as one shell-safe token
/// that keeps its literal meaning inside a Unix shell command; a pure
/// function of the string.
#[verifier::external_body]
fn quote_word(s: &str) -> (r: String)
    ensures
        r@ == shell_quote(s@),
{
    shell_words::quote(s).into_owned()
}

/// Splits a possibly multi-word command string into the program and its
/// leading arguments, and appends `args` after them. Fails when the
/// command cannot be split, or splits into no words at all.
pub fn parse_command(command: &str, args: Vec<String>) -> (r: Result<
    (String, Vec<String>),
    AssemblyError,
>)
    ensures
        r is Ok <==> (shell_split(command@) matches Some(t) && t.len() > 0),
        r matches Ok((program, argv)) ==> (shell_split(command@) matches Some(t) && program@
            == t[0] && views_of(argv@) == t.skip(1) + views_of(args@)),
        shell_split(command@) is None ==> r == Result::<(String, Vec<String>), AssemblyError>::Err(
            AssemblyError::TmuxCommandSplit,
        ),
        (shell_split(command@) matches Some(t) && t.len() == 0) ==> r == Result::<
            (String, Vec<String>),
            AssemblyError,
        >::Err(AssemblyError::TmuxCommandEmpty),
{
    let mut words: Vec<String> = match split_words(command) {
        Option::Some(v) => v,
        Option::None => {
            return Err(AssemblyError::TmuxCommandSplit);
        },
    };
    if words.len() == 0 {
        return Err(AssemblyError::TmuxCommandEmpty);
    }
    let ghost toks = shell_split(command@).unwrap();
    let mut argv: Vec<String> = Vec::new();
    let mut i: usize = 1;
    while i < words.len()
        invariant
            1 <= i <= words@.len(),
            views_of(words@) == toks,
            toks.len() > 0,
            views_of(argv@) =~= toks.subrange(1, i as int),
        decreases words@.len() - i,
    {
        let w = words[i].clone();
        proof {
            assert(views_of(words@)[i as int] == words@[i as int]@);
            assert(w@ == toks[i as int]);
        }
        let ghost prev = argv@;
        argv.push(w);
        proof {
            assert(views_of(prev).len() == prev.len());
            assert forall|k: int| 0 <= k < argv@.len() implies views_of(argv@)[k] == toks.subrange(
                1,
                i + 1 as int,
            )[k] by {
                assert(views_of(argv@)[k] == argv@[k]@);
                if k < prev.len() {
                    assert(views_of(prev)[k] == prev[k]@);
                }
            }
            assert(views_of(argv@) =~= toks.subrange(1, i + 1 as int));
        }
        i = i + 1;
    }
    let mut rest = args;
    let ghost rest0 = rest@;
    argv.append(&mut rest);
    let program = words.remove(0);
    proof {
        assert(program@ == toks[0]);
        assert(views_of(argv@) =~= toks.skip(1) + views_of(rest0));
    }
    Ok((program, argv))
}

impl Project {
    /// The fixed `-L <socket>` word pair contributed by `tmux_socket`.
    pub open spec fn socket_words(self) -> Seq<Seq<char>> {
        match self.tmux_socket {
            Option::Some(s) => seq!["-L"@, s@],
            Option::None => Seq::empty(),
        }
    }

    /// The words that `tmux_options` contributes, assuming it splits.
    pub open spec fn option_words(self) -> Seq<Seq<char>> {
        match self.tmux_options {
            Option::Some(o) => shell_split(o@).unwrap(),
            Option::None => Seq::empty(),
        }
    }

    /// Does `tmux_options` split cleanly (or stay absent)?
    pub open spec fn options_split_ok(self) -> bool {
        self.tmux_options matches Some(o) ==> shell_split(o@) is Some
    }

    /// Can an invocation be assembled from this project? The command must
    /// be set and split into at least one word, and the options must split.
    pub open spec fn invocation_ok(self) -> bool {
        &&& self.tmux_command matches Some(c) && (shell_split(c@) matches Some(t) && t.len()
            > 0)
        &&& self.options_split_ok()
    }

    /// The program of the assembled invocation: the first word of
    /// `tmux_command`.
    pub open spec fn invocation_program(self) -> Seq<char> {
        shell_split(self.tmux_command.unwrap()@).unwrap()[0]
    }

    /// The argument vector of the assembled invocation: the remaining words
    /// of `tmux_command`, then the socket pair, then the split options,
    /// then the caller's trailing arguments.
    pub open spec fn invocation_args(self, args: Seq<Seq<char>>) -> Seq<Seq<char>> {
        shell_split(self.tmux_command.unwrap()@).unwrap().skip(1) + self.socket_words()
            + self.option_words() + args
    }

    /// Assembles the command line that drives the multiplexer: the program
    /// and leading words come from splitting `tmux_command`; the argument
    /// vector then carries the `-L <socket>` pair if a socket is set, the
    /// shell-split `tmux_options`, and finally the caller's trailing
    /// arguments in their given order.
    pub fn get_tmux_command(&self, args: Vec<String>) -> (r: Result<
        (String, Vec<String>),
        AssemblyError,
    >)
        ensures
            r is Ok <==> self.tmux_command is Some && self.invocation_ok(),
            r matches Ok((program, argv)) ==> program@ == self.invocation_program() && views_of(
                argv@,
            ) == self.invocation_args(views_of(args@)),
            self.tmux_command is None ==> r == Result::<(String, Vec<String>), AssemblyError>::Err(
                AssemblyError::TmuxCommandNotSet,
            ),
            self.tmux_command is Some && !self.options_split_ok() ==> r == Result::<
                (String, Vec<String>),
                AssemblyError,
            >::Err(AssemblyError::TmuxOptionsSplit),
            (self.tmux_command matches Some(c) && self.options_split_ok() && shell_split(c@)
                is None) ==> r == Result::<(String, Vec<String>), AssemblyError>::Err(
                AssemblyError::TmuxCommandSplit,
            ),
            (self.tmux_command matches Some(c) && self.options_split_ok() && (shell_split(c@)
                matches Some(t) && t.len() == 0)) ==> r == Result::<
                (String, Vec<String>),
                AssemblyError,
            >::Err(AssemblyError::TmuxCommandEmpty),
    {
        let command: &String = match &self.tmux_command {
            Option::Some(c) => c,
            Option::None => {
                return Err(AssemblyError::TmuxCommandNotSet);
            },
        };
        let mut full_args: Vec<String> = Vec::new();
        if let Option::Some(tmux_socket) = &self.tmux_socket {
            full_args.push(String::from_str("-L"));
            full_args.push(tmux_socket.clone());
        }
        proof {
            assert(views_of(full_args@) =~= self.socket_words());
        }
        if let Option::Some(tmux_options) = &self.tmux_options {
            let mut option_words: Vec<String> = match split_words(tmux_options.as_str()) {
                Option::Some(v) => v,
                Option::None => {
                    return Err(AssemblyError::TmuxOptionsSplit);
                },
            };
            let ghost before = full_args@;
            full_args.append(&mut option_words);
            proof {
                assert(views_of(full_args@) =~= views_of(before) + self.option_words());
            }
        }
        let mut rest = args;
        let ghost before = full_args@;
        let ghost rest0 = rest@;
        full_args.append(&mut rest);
        proof {
            assert(views_of(full_args@) =~= self.socket_words() + self.option_words() + views_of(
                rest0,
            ));
        }
        let r = parse_command(command.as_str(), full_args);
        proof {
            if shell_split(command@) is Some {
                let t = shell_split(command@).unwrap();
                assert(t.skip(1) + (self.socket_words() + self.option_words() + views_of(rest0))
                    =~= t.skip(1) + self.socket_words() + self.option_words() + views_of(rest0));
            }
        }
        r
    }
}

/// The text that renders an argument vector for embedding in a script:
/// each argument is shell-quoted and preceded by a single space.
pub open spec fn render_quoted(args: Seq<Seq<char>>) -> Seq<char>
    decreases args.len(),
{
    if args.len() == 0 {
        Seq::empty()
    } else {
        seq![' '] + shell_quote(args[0]) + render_quoted(args.skip(1))
    }
}

/// Rendering a concatenation of argument vectors renders each in turn.
pub proof fn lemma_render_quoted_concat(a: Seq<Seq<char>>, b: Seq<Seq<char>>)
    ensures
        render_quoted(a + b) == render_quoted(a) + render_quoted(b),
    decreases a.len(),
{
    if a.len() == 0 {
        assert(a + b =~= b);
        assert(render_quoted(a) + render_quoted(b) =~= render_quoted(b));
    } else {
        assert((a + b).skip(1) =~= a.skip(1) + b);
        lemma_render_quoted_concat(a.skip(1), b);
        assert((a + b).len() > 0);
        assert((a + b)[0] == a[0]);
        assert(seq![' '] + shell_quote(a[0]) + (render_quoted(a.skip(1)) + render_quoted(b)) =~= (
        seq![' '] + shell_quote(a[0]) + render_quoted(a.skip(1))) + render_quoted(b));
    }
}

impl Project {
    /// Renders the assembled invocation as one line of text, safe to embed
    /// in a generated script: the program, then every argument
    /// shell-quoted individually, joined by single spaces. The text is
    /// only rendered here, never executed.
    pub fn get_tmux_command_for_template(&self) -> (r: Result<String, AssemblyError>)
        ensures
            r is Ok <==> self.tmux_command is Some && self.invocation_ok(),
            r matches Ok(s) ==> s@ == self.invocation_program() + render_quoted(
                self.invocation_args(Seq::empty()),
            ),
            self.tmux_command is None ==> r == Result::<String, AssemblyError>::Err(
                AssemblyError::TmuxCommandNotSet,
            ),
            self.tmux_command is Some && !self.options_split_ok() ==> r == Result::<
                String,
                AssemblyError,
            >::Err(AssemblyError::TmuxOptionsSplit),
            (self.tmux_command matches Some(c) && self.options_split_ok() && shell_split(c@)
                is None) ==> r == Result::<String, AssemblyError>::Err(
                AssemblyError::TmuxCommandSplit,
            ),
            (self.tmux_command matches Some(c) && self.options_split_ok() && (shell_split(c@)
                matches Some(t) && t.len() == 0)) ==> r == Result::<String, AssemblyError>::Err(
                AssemblyError::TmuxCommandEmpty,
            ),
    {
        let empty_args: Vec<String> = Vec::new();
        proof {
            assert(views_of(empty_args@) =~= Seq::<Seq<char>>::empty());
        }
        let (command, args) = match self.get_tmux_command(empty_args) {
            Result::Ok(p) => p,
            Result::Err(e) => {
                return Err(e);
            },
        };
        let mut out: String = command;
        let mut i: usize = 0;
        while i < args.len()
            invariant
                0 <= i <= args@.len(),
                views_of(args@) == self.invocation_args(Seq::empty()),
                out@ == self.invocation_program() + render_quoted(
                    views_of(args@).take(i as int),
                ),
            decreases args@.len() - i,
        {
            let q = quote_word(args[i].as_str());
            out.append(" ");
            out.append(q.as_str());
            proof {
                reveal_strlit(" ");
                assert(" "@ =~= seq![' ']);
                let vs = views_of(args@);
                assert(vs[i as int] == args@[i as int]@);
                assert(vs.take(i + 1 as int) =~= vs.take(i as int) + seq![vs[i as int]]);
                lemma_render_quoted_concat(vs.take(i as int), seq![vs[i as int]]);
                assert(seq![vs[i as int]].skip(1) =~= Seq::<Seq<char>>::empty());
                assert(render_quoted(Seq::<Seq<char>>::empty()) =~= Seq::<char>::empty());
                assert(render_quoted(seq![vs[i as int]]) =~= seq![' '] + shell_quote(
                    vs[i as int],
                ));
                assert(out@ =~= self.invocation_program() + render_quoted(
                    vs.take(i + 1 as int),
                ));
            }
            i = i + 1;
        }
        proof {
            assert(views_of(args@).take(args@.len() as int) =~= views_of(args@));
        }
        Ok(out)
    }
}

} // verus!
