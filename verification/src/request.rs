//! The request model: what is being approved, and the confirmation prompt
//! text built from it.

use vstd::prelude::*;

verus! {

/// A request coming from the agent that needs user approval: either running
/// a command or applying a file patch. The identifier is echoed back in the
/// operation notification; the working directory and the grant root are
/// carried in display form — for the working directory that is what
/// [`display_cwd`] yields once the host has looked the home directory up.
pub enum ApprovalRequest {
    Exec { id: String, command: Vec<String>, cwd: String, reason: Option<String> },
    ApplyPatch { id: String, reason: Option<String>, grant_root: Option<String> },
}

/// A character that may stand unquoted in a displayed command: an ASCII
/// letter or digit, or one of a few punctuation characters that no shell
/// reads specially.
pub open spec fn is_safe_char(c: char) -> bool {
    let u = c as u32;
    ||| (97 <= u && u <= 122)
    ||| (65 <= u && u <= 90)
    ||| (48 <= u && u <= 57)
    ||| c == '@'
    ||| c == '%'
    ||| c == '+'
    ||| c == '='
    ||| c == ':'
    ||| c == ','
    ||| c == '.'
    ||| c == '/'
    ||| c == '_'
    ||| c == '-'
}

/// Whether a token may stand as it is: nonempty and made of safe
/// characters only.
pub open spec fn spec_token_is_plain(t: Seq<char>) -> bool {
    t.len() > 0 && forall|i: int| 0 <= i < t.len() ==> is_safe_char(#[trigger] t[i])
}

/// A character inside a single-quoted token: a quote is written as a closed
/// quote, a backslash-escaped quote and a reopened quote; anything else
/// stands as it is.
pub open spec fn spec_escape_char(c: char) -> Seq<char> {
    if c == '\'' {
        seq!['\'', '\\', '\'', '\'']
    } else {
        seq![c]
    }
}

/// The body of a single-quoted token, character by character.
pub open spec fn spec_quote_body(t: Seq<char>) -> Seq<char>
    decreases t.len(),
{
    if t.len() == 0 {
        Seq::empty()
    } else {
        spec_quote_body(t.drop_last()) + spec_escape_char(t.last())
    }
}

/// The display form of one argument token: plain tokens stand as they are,
/// anything else is single-quoted.
pub open spec fn spec_display_token(t: Seq<char>) -> Seq<char> {
    if spec_token_is_plain(t) {
        t
    } else {
        seq!['\''] + spec_quote_body(t) + seq!['\'']
    }
}

/// The argument tokens, each in display form, joined with single spaces.
pub open spec fn spec_join_args(args: Seq<Seq<char>>) -> Seq<char>
    decreases args.len(),
{
    if args.len() == 0 {
        Seq::empty()
    } else if args.len() == 1 {
        spec_display_token(args[0])
    } else {
        spec_join_args(args.drop_last()) + seq![' '] + spec_display_token(args.last())
    }
}

/// The command line shown for a token sequence: a `bash -lc` wrapper is
/// stripped to its script, shown verbatim; any other sequence is joined
/// with single spaces, each token quoted where it needs to be.
pub open spec fn spec_command_line(args: Seq<Seq<char>>) -> Seq<char> {
    if args.len() == 3 && args[0] == "bash"@ && args[1] == "-lc"@ {
        args[2]
    } else {
        spec_join_args(args)
    }
}

fn token_is_plain(t: &String) -> (r: bool)
    ensures
        r == spec_token_is_plain(t@),
{
    let st = t.as_str();
    let n = st.unicode_len();
    if n == 0 {
        return false;
    }
    let mut i: usize = 0;
    while i < n
        invariant
            i <= n,
            n == t@.len(),
            st@ == t@,
            forall|j: int| 0 <= j < i ==> is_safe_char(#[trigger] t@[j]),
        decreases n - i,
    {
        let c = st.get_char(i);
        let u = c as u32;
        let safe = (97 <= u && u <= 122) || (65 <= u && u <= 90) || (48 <= u && u <= 57)
            || c == '@' || c == '%' || c == '+' || c == '=' || c == ':' || c == ','
            || c == '.' || c == '/' || c == '_' || c == '-';
        if !safe {
            return false;
        }
        i += 1;
    }
    true
}

fn quote_token(t: &String) -> (r: String)
    ensures
        r@ == seq!['\''] + spec_quote_body(t@) + seq!['\''],
{
    let st = t.as_str();
    let n = st.unicode_len();
    let mut r = String::from_str("'");
    proof {
        reveal_strlit("'");
        assert(r@ =~= seq!['\''] + spec_quote_body(t@.take(0)));
    }
    let mut i: usize = 0;
    while i < n
        invariant
            i <= n,
            n == t@.len(),
            st@ == t@,
            r@ == seq!['\''] + spec_quote_body(t@.take(i as int)),
        decreases n - i,
    {
        let c = st.get_char(i);
        if c == '\'' {
            r.append("'\\''");
            proof {
                reveal_strlit("'\\''");
                assert("'\\''"@ =~= seq!['\'', '\\', '\'', '\'']);
            }
        } else {
            r.append(st.substring_char(i, i + 1));
            proof {
                assert(t@.subrange(i as int, i as int + 1) =~= seq![t@[i as int]]);
            }
        }
        proof {
            assert(t@.take(i as int + 1).drop_last() =~= t@.take(i as int));
            assert(t@.take(i as int + 1).last() == t@[i as int]);
            assert(r@ =~= seq!['\''] + spec_quote_body(t@.take(i as int + 1)));
        }
        i += 1;
    }
    r.append("'");
    proof {
        reveal_strlit("'");
        assert(t@.take(n as int) =~= t@);
        assert(r@ =~= seq!['\''] + spec_quote_body(t@) + seq!['\'']);
    }
    r
}

/// One argument token in display form.
fn display_token(t: &String) -> (r: String)
    ensures
        r@ == spec_display_token(t@),
{
    if token_is_plain(t) {
        t.clone()
    } else {
        quote_token(t)
    }
}

proof fn lemma_join_step(args: Seq<Seq<char>>, i: int)
    requires
        0 <= i < args.len(),
    ensures
        spec_join_args(args.take(i + 1)) == if i == 0 {
            spec_display_token(args[0])
        } else {
            spec_join_args(args.take(i)) + seq![' '] + spec_display_token(args[i])
        },
{
    if i == 0 {
        assert(args.take(1).len() == 1);
        assert(args.take(1)[0] == args[0]);
    } else {
        assert(args.take(i + 1).drop_last() =~= args.take(i));
        assert(args.take(i + 1).last() == args[i]);
    }
}

fn join_args(args: &Vec<String>) -> (r: String)
    ensures
        r@ == spec_join_args(args.deep_view()),
{
    let mut r = String::new();
    let mut i: usize = 0;
    proof {
        assert(r@ =~= Seq::<char>::empty());
        assert(args.deep_view().take(0) =~= Seq::<Seq<char>>::empty());
    }
    while i < args.len()
        invariant
            i <= args.len(),
            r@ == spec_join_args(args.deep_view().take(i as int)),
        decreases args.len() - i,
    {
        if i > 0 {
            r.append(" ");
            proof {
                reveal_strlit(" ");
                assert(" "@ =~= seq![' ']);
            }
        }
        let shown = display_token(&args[i]);
        r.append(shown.as_str());
        proof {
            assert(args.deep_view()[i as int] == args[i as int].deep_view());
            lemma_join_step(args.deep_view(), i as int);
        }
        i += 1;
    }
    proof {
        assert(args.deep_view().take(args.len() as int) =~= args.deep_view());
    }
    r
}

/// The command line shown for the given argument tokens.
pub fn command_line(args: &Vec<String>) -> (r: String)
    ensures
        r@ == spec_command_line(args.deep_view()),
{
    if args.len() == 3 {
        let bash = String::from_str("bash");
        let lc = String::from_str("-lc");
        proof {
            assert(args.deep_view()[0] == args[0].deep_view());
            assert(args.deep_view()[1] == args[1].deep_view());
            assert(args.deep_view()[2] == args[2].deep_view());
        }
        if args[0].eq(&bash) && args[1].eq(&lc) {
            return args[2].clone();
        }
    }
    join_args(args)
}

/// The display form of a working directory: shown home-relative behind
/// `~/` when it is the home directory or lies under it, and in its absolute
/// form otherwise — a silent fallback, never an error.
pub open spec fn spec_display_cwd(cwd: Seq<char>, home: Option<Seq<char>>) -> Seq<char> {
    match home {
        Some(h) => {
            if h.len() > 0 && cwd == h {
                "~/"@
            } else if h.len() > 0 && h.len() < cwd.len() && cwd.take(h.len() as int) == h
                && cwd[h.len() as int] == '/' {
                "~/"@ + cwd.skip(h.len() as int + 1)
            } else {
                cwd
            }
        },
        None => cwd,
    }
}

/// The display form of a working directory, given the home directory if
/// one is known. The host looks the home directory up and calls this before
/// it builds a request.
pub fn display_cwd(cwd: &String, home: &Option<String>) -> (r: String)
    ensures
        r@ == spec_display_cwd(cwd@, home.deep_view()),
{
    match home {
        Some(h) => {
            let hs = h.as_str();
            let cs = cwd.as_str();
            let hn = hs.unicode_len();
            let cn = cs.unicode_len();
            if hn > 0 && hn == cn && cwd.eq(h) {
                String::from_str("~/")
            } else if hn > 0 && hn < cn {
                let prefix = String::from_str(cs.substring_char(0, hn));
                if prefix.eq(h) && cs.get_char(hn) == '/' {
                    let mut r = String::from_str("~/");
                    r.append(cs.substring_char(hn + 1, cn));
                    proof {
                        assert(cwd@.subrange(hn as int + 1, cn as int) =~= cwd@.skip(
                            hn as int + 1,
                        ));
                        assert(cwd@.subrange(0, hn as int) =~= cwd@.take(hn as int));
                    }
                    r
                } else {
                    proof {
                        assert(cwd@.subrange(0, hn as int) =~= cwd@.take(hn as int));
                    }
                    cwd.clone()
                }
            } else {
                cwd.clone()
            }
        },
        None => cwd.clone(),
    }
}

impl ApprovalRequest {
    /// Whether this is an `Exec` request.
    pub open spec fn is_exec(self) -> bool {
        match self {
            ApprovalRequest::Exec { .. } => true,
            ApprovalRequest::ApplyPatch { .. } => false,
        }
    }

    /// The request's identifier.
    pub open spec fn spec_id(self) -> Seq<char> {
        match self {
            ApprovalRequest::Exec { id, .. } => id@,
            ApprovalRequest::ApplyPatch { id, .. } => id@,
        }
    }

    /// The command tokens of an `Exec` request; an `ApplyPatch` request has
    /// none.
    pub open spec fn spec_command(self) -> Seq<Seq<char>> {
        match self {
            ApprovalRequest::Exec { command, .. } => command.deep_view(),
            ApprovalRequest::ApplyPatch { .. } => Seq::empty(),
        }
    }

    /// The title of the response region for this request kind.
    pub open spec fn spec_title(self) -> Seq<char> {
        if self.is_exec() {
            "Allow command?"@
        } else {
            "Apply changes?"@
        }
    }

    /// The confirmation prompt, line by line. An `Exec` request announces the
    /// command with its working directory; an `ApplyPatch` request shows the
    /// rationale and the write grant, where present. A blank line follows
    /// each block.
    pub open spec fn spec_prompt_lines(self) -> Seq<Seq<char>> {
        match self {
            ApprovalRequest::Exec { command, cwd, reason, .. } => {
                let head = seq![
                    "codex wants to run:"@,
                    cwd@ + "$ "@ + spec_command_line(command.deep_view()),
                    Seq::<char>::empty(),
                ];
                match reason {
                    Some(r) => head + seq![r@, Seq::<char>::empty()],
                    None => head,
                }
            },
            ApprovalRequest::ApplyPatch { reason, grant_root, .. } => {
                let head = match reason {
                    Some(r) => seq![r@, Seq::<char>::empty()],
                    None => Seq::<Seq<char>>::empty(),
                };
                match grant_root {
                    Some(root) => head + seq![
                        "This will grant write access to "@ + root@
                            + " for the remainder of this session."@,
                        Seq::<char>::empty(),
                    ],
                    None => head,
                }
            },
        }
    }

    /// The title of the response region as an owned string.
    pub fn title(&self) -> (r: String)
        ensures
            r@ == self.spec_title(),
    {
        match self {
            ApprovalRequest::Exec { .. } => String::from_str("Allow command?"),
            ApprovalRequest::ApplyPatch { .. } => String::from_str("Apply changes?"),
        }
    }

    /// Builds the confirmation prompt lines.
    pub fn prompt_lines(&self) -> (r: Vec<String>)
        ensures
            r.deep_view() == self.spec_prompt_lines(),
    {
        match self {
            ApprovalRequest::Exec { command, cwd, reason, .. } => {
                let cmd = command_line(command);
                let mut lines: Vec<String> = Vec::new();
                lines.push(String::from_str("codex wants to run:"));
                let mut cwd_line = cwd.clone();
                cwd_line.append("$ ");
                cwd_line.append(cmd.as_str());
                lines.push(cwd_line);
                lines.push(String::new());
                match reason {
                    Some(reason) => {
                        lines.push(reason.clone());
                        lines.push(String::new());
                    },
                    None => {},
                }
                proof {
                    assert(lines.deep_view() =~~= self.spec_prompt_lines());
                }
                lines
            },
            ApprovalRequest::ApplyPatch { reason, grant_root, .. } => {
                let mut lines: Vec<String> = Vec::new();
                match reason {
                    Some(reason) => {
                        lines.push(reason.clone());
                        lines.push(String::new());
                    },
                    None => {},
                }
                match grant_root {
                    Some(root) => {
                        let mut grant_line = String::from_str(
                            "This will grant write access to ",
                        );
                        grant_line.append(root.as_str());
                        grant_line.append(" for the remainder of this session.");
                        lines.push(grant_line);
                        lines.push(String::new());
                    },
                    None => {},
                }
                proof {
                    assert(lines.deep_view() =~~= self.spec_prompt_lines());
                }
                lines
            },
        }
    }
}

} // verus!
