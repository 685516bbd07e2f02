//! Resolving imports: the decisions of merging imported modules into a
//! program, as a machine that asks for each imported module in turn.
//!
//! The machine holds a stack of modules being resolved. Each step takes
//! the next statement of the innermost module: an `import` asks for the
//! module it names (the caller locates and reads it, and hands back what it
//! found); any other statement is kept. A finished module's statements are
//! renamed under its alias, if it has one, and appended to the module that
//! imported it. When the program itself is finished, its statements are
//! checked for duplicate function definitions.

use vstd::prelude::*;
use crate::ast::{Stmt, StmtV, stmt_list_view, string_list_view, lemma_stmt_view};
use crate::text::{chars_of, string_from_chars};
use crate::lexer::chars_eq_str;
use crate::parser::expr::copy_string;
use crate::parser::imports::{
    prefix_block_spec, name_set, defined_names, first_duplicate, duplicate_message,
    apply_module_alias, local_functions, validate_unique_functions,
};
use crate::parser::source::{TextError, parse_text, load_module, lexer_error_message, parser_error_message};

verus! {

/// An import path with `\` separators written as `/`.
pub open spec fn normalize_separators(p: Seq<char>) -> Seq<char> {
    p.map_values(|c: char| if c == '\\' { '/' } else { c })
}

/// `path` with `\` separators written as `/`, so that paths written for
/// Windows are found elsewhere too.
pub fn normalize_path(path: &String) -> (r: String)
    ensures
        r@ == normalize_separators(path@),
{
    let cs = chars_of(path.as_str());
    let mut out: Vec<char> = Vec::new();
    let mut i: usize = 0;
    while i < cs.len()
        invariant
            i <= cs@.len(),
            cs@ == path@,
            out@ == normalize_separators(cs@.take(i as int)),
        decreases cs@.len() - i,
    {
        let c = cs[i];
        out.push(if c == '\\' { '/' } else { c });
        i = i + 1;
        assert(normalize_separators(cs@.take(i as int)) =~= normalize_separators(
            cs@.take(i - 1 as int),
        ).push(if c == '\\' { '/' } else { c }));
    }
    assert(cs@.take(cs@.len() as int) =~= cs@);
    string_from_chars(out.as_slice())
}

/// A module being resolved: its directory, its statements not yet
/// resolved, the alias it was imported under and its own functions, and
/// the statements it has produced so far.
pub struct Frame {
    pub dir: String,
    pub pending: Vec<Stmt>,
    pub alias: Option<String>,
    pub locals: Vec<String>,
    pub out: Vec<Stmt>,
}

/// A module being resolved, as the specification sees it.
pub ghost struct FrameV {
    pub dir: Seq<char>,
    pub pending: Seq<StmtV>,
    pub alias: Option<Seq<char>>,
    pub locals: Seq<Seq<char>>,
    pub out: Seq<StmtV>,
}

impl Frame {
    pub open spec fn view(&self) -> FrameV {
        FrameV {
            dir: self.dir@,
            pending: stmt_list_view(self.pending@),
            alias: match self.alias {
                Some(a) => Some(a@),
                None => None,
            },
            locals: string_list_view(self.locals@),
            out: stmt_list_view(self.out@),
        }
    }
}

/// What the machine asks of its caller.
pub enum Action {
    /// Nothing: step again.
    Continue,
    /// Locate and read the module `path` imported from the directory `dir`,
    /// and hand back what was found; `raw` is the path as the import wrote
    /// it, for messages.
    Load { dir: String, path: String, raw: String },
    /// The program's statements with their imports resolved, or the error
    /// that stopped the resolution.
    Finished(Result<Vec<Stmt>, String>),
}

/// An action as the specification sees it.
pub ghost enum ActionV {
    Continue,
    Load(Seq<char>, Seq<char>, Seq<char>),
    Finished(Result<Seq<StmtV>, Seq<char>>),
}

/// The view of a result of statements.
pub open spec fn result_view(r: Result<Vec<Stmt>, String>) -> Result<Seq<StmtV>, Seq<char>> {
    match r {
        Ok(v) => Ok(stmt_list_view(v@)),
        Err(e) => Err(e@),
    }
}

impl Action {
    pub open spec fn view(&self) -> ActionV {
        match self {
            Action::Continue => ActionV::Continue,
            Action::Load { dir, path, raw } => ActionV::Load(dir@, path@, raw@),
            Action::Finished(r) => ActionV::Finished(result_view(*r)),
        }
    }
}

/// What the caller found for a requested module.
pub enum Event {
    /// The module was found: its canonical name (which identifies it), the
    /// directory its own imports are relative to, and its text.
    Found { key: String, dir: String, source: String },
    /// The module could not be found or read; the message says why.
    Failed(String),
}

/// The state of the machine, as the specification sees it.
pub ghost struct ResolverV {
    /// The modules already merged, with the alias each was imported under.
    pub visited: Seq<(Seq<char>, Option<Seq<char>>)>,
    /// The modules being resolved, the program first.
    pub frames: Seq<FrameV>,
    /// The alias of the import whose module was asked for, while the
    /// machine waits for it.
    pub awaiting: Option<Option<Seq<char>>>,
    /// The result, once it is known and not yet reported.
    pub outcome: Option<Result<Seq<StmtV>, Seq<char>>>,
}

/// The statements a finished module contributes: its output, renamed
/// under its alias when it has one.
pub open spec fn module_output(f: FrameV) -> Seq<StmtV> {
    match f.alias {
        Some(a) => prefix_block_spec(f.out, a, Set::new(|x: Seq<char>| f.locals.contains(x))),
        None => f.out,
    }
}

/// The result for the program's resolved statements: refused when they
/// define a function twice.
pub open spec fn final_result(out: Seq<StmtV>) -> Result<Seq<StmtV>, Seq<char>> {
    match first_duplicate(out) {
        None => Ok(out),
        Some(n) => Err(duplicate_message(n)),
    }
}

/// One step of the machine from `st`: the next state and what it asks.
pub open spec fn step_spec(st: ResolverV) -> (ResolverV, ActionV) {
    match st.outcome {
        Some(res) => (
            ResolverV { visited: st.visited, frames: seq![], awaiting: None, outcome: None },
            ActionV::Finished(res),
        ),
        None => {
            let n = st.frames.len();
            let top = st.frames.last();
            if top.pending.len() > 0 {
                let s = top.pending[0];
                let rest = FrameV { pending: top.pending.drop_first(), ..top };
                match s {
                    StmtV::Import(path, alias) => (
                        ResolverV {
                            frames: st.frames.update(n - 1, rest),
                            awaiting: Some(alias),
                            ..st
                        },
                        ActionV::Load(top.dir, normalize_separators(path), path),
                    ),
                    _ => (
                        ResolverV {
                            frames: st.frames.update(n - 1, FrameV { out: top.out.push(s), ..rest }),
                            ..st
                        },
                        ActionV::Continue,
                    ),
                }
            } else if n == 1 {
                (
                    ResolverV { frames: seq![], outcome: Some(final_result(top.out)), ..st },
                    ActionV::Continue,
                )
            } else {
                let parent = st.frames[n - 2];
                (
                    ResolverV {
                        frames: st.frames.drop_last().update(
                            n - 2,
                            FrameV { out: parent.out + module_output(top), ..parent },
                        ),
                        ..st
                    },
                    ActionV::Continue,
                )
            }
        },
    }
}

/// Whether `e` is the event `Found` with the given parts.
pub open spec fn found(e: Event, key: Seq<char>, dir: Seq<char>, source: Seq<char>) -> bool {
    e matches Event::Found { key: k, dir: d, source: s } && k@ == key && d@ == dir && s@ == source
}

/// What handing the event `ev` to the machine in state `st` leads to:
/// `post`. A module already merged under the same alias is skipped; a new
/// one is lexed and parsed and becomes the innermost module.
pub open spec fn supplied(st: ResolverV, ev: Event, post: ResolverV) -> bool {
    let alias = st.awaiting->0;
    let st0 = ResolverV { awaiting: None, ..st };
    match ev {
        Event::Failed(m) => post == ResolverV { outcome: Some(Err(m@)), ..st0 },
        Event::Found { key, dir, source } => if st.visited.contains((key@, alias)) {
            post == st0
        } else {
            let st1 = ResolverV { visited: st.visited.push((key@, alias)), ..st0 };
            match parse_text(source@) {
                Ok(stmts) => post == ResolverV {
                    frames: st.frames.push(
                        FrameV {
                            dir: dir@,
                            pending: stmts,
                            alias,
                            locals: defined_names(stmts),
                            out: seq![],
                        },
                    ),
                    ..st1
                },
                Err(TextError::Lex(m)) => post == ResolverV {
                    outcome: Some(Err(lexer_error_message(key@, m))),
                    ..st1
                },
                Err(TextError::Parse(m)) => post == ResolverV {
                    outcome: Some(Err(parser_error_message(key@, m))),
                    ..st1
                },
            }
        },
    }
}

/// The machine about to resolve the imports of the program `stmts` in the
/// directory `dir`.
pub open spec fn initial_state(stmts: Seq<StmtV>, dir: Seq<char>) -> ResolverV {
    ResolverV {
        visited: seq![],
        frames: seq![FrameV { dir, pending: stmts, alias: None, locals: seq![], out: seq![] }],
        awaiting: None,
        outcome: None,
    }
}

/// The state after `k` steps from `st`, when no module is asked for.
pub open spec fn after_steps(st: ResolverV, k: nat) -> ResolverV
    decreases k,
{
    if k == 0 {
        st
    } else {
        step_spec(after_steps(st, (k - 1) as nat)).0
    }
}

/// Whether `s` is an `import`.
pub open spec fn is_import(s: StmtV) -> bool {
    s matches StmtV::Import(_, _)
}

proof fn lemma_steps_without_imports(stmts: Seq<StmtV>, dir: Seq<char>, k: nat)
    requires
        k <= stmts.len(),
        forall|i: int| 0 <= i < stmts.len() ==> !is_import(#[trigger] stmts[i]),
    ensures
        after_steps(initial_state(stmts, dir), k) == (ResolverV {
            visited: seq![],
            frames: seq![
                FrameV {
                    dir,
                    pending: stmts.skip(k as int),
                    alias: None,
                    locals: seq![],
                    out: stmts.take(k as int),
                },
            ],
            awaiting: None,
            outcome: None,
        }),
    decreases k,
{
    if k == 0 {
        assert(stmts.skip(0) =~= stmts);
        assert(stmts.take(0) =~= Seq::<StmtV>::empty());
    } else {
        lemma_steps_without_imports(stmts, dir, (k - 1) as nat);
        let prev = after_steps(initial_state(stmts, dir), (k - 1) as nat);
        let top = prev.frames.last();
        assert(top.pending =~= stmts.skip(k - 1));
        assert(top.pending[0] == stmts[k - 1]);
        assert(!is_import(stmts[k - 1]));
        assert(top.pending.drop_first() =~= stmts.skip(k as int));
        assert(top.out.push(stmts[k - 1]) =~= stmts.take(k as int));
        assert(prev.frames.update(0, FrameV {
            out: top.out.push(stmts[k - 1]),
            pending: top.pending.drop_first(),
            ..top
        }) =~= seq![
            FrameV {
                dir,
                pending: stmts.skip(k as int),
                alias: None,
                locals: seq![],
                out: stmts.take(k as int),
            },
        ]);
    }
}

/// A program without imports resolves to its own statements: after one
/// step per statement and one to finish, the machine reports them, refused
/// only when they define a function twice.
pub proof fn lemma_resolve_without_imports(stmts: Seq<StmtV>, dir: Seq<char>)
    requires
        forall|i: int| 0 <= i < stmts.len() ==> !is_import(#[trigger] stmts[i]),
    ensures
        step_spec(after_steps(initial_state(stmts, dir), stmts.len() + 1)).1 == ActionV::Finished(
            final_result(stmts),
        ),
{
    lemma_steps_without_imports(stmts, dir, stmts.len());
    assert(stmts.skip(stmts.len() as int) =~= Seq::<StmtV>::empty());
    assert(stmts.take(stmts.len() as int) =~= stmts);
}

/// The machine that resolves the imports of a program.
pub struct ImportResolver {
    visited: Vec<(String, Option<String>)>,
    frames: Vec<Frame>,
    awaiting: Option<Option<String>>,
    outcome: Option<Result<Vec<Stmt>, String>>,
}

/// The view of an optional string.
pub open spec fn opt_str(o: Option<String>) -> Option<Seq<char>> {
    match o {
        Some(s) => Some(s@),
        None => None,
    }
}

impl ImportResolver {
    pub closed spec fn view(&self) -> ResolverV {
        ResolverV {
            visited: Seq::new(
                self.visited@.len(),
                |i: int| (self.visited@[i].0@, opt_str(self.visited@[i].1)),
            ),
            frames: Seq::new(self.frames@.len(), |i: int| self.frames@[i].view()),
            awaiting: match self.awaiting {
                Some(a) => Some(opt_str(a)),
                None => None,
            },
            outcome: match self.outcome {
                Some(r) => Some(result_view(r)),
                None => None,
            },
        }
    }

    /// Whether the machine can take a step: it has a result to report, or
    /// modules to resolve and no module to wait for.
    pub open spec fn ready(&self) -> bool {
        self@.outcome is Some || (self@.frames.len() >= 1 && self@.awaiting is None)
    }

    /// Whether the machine waits for a module it asked for.
    pub open spec fn waiting(&self) -> bool {
        self@.awaiting is Some && self@.outcome is None && self@.frames.len() >= 1
    }

    /// A machine about to resolve the imports of `statements`, a program
    /// in the directory `base_dir`.
    pub fn new(statements: Vec<Stmt>, base_dir: String) -> (r: Self)
        ensures
            r@ == initial_state(stmt_list_view(statements@), base_dir@),
            r.ready(),
    {
        let root = Frame {
            dir: base_dir,
            pending: statements,
            alias: None,
            locals: Vec::new(),
            out: Vec::new(),
        };
        let r = ImportResolver { visited: Vec::new(), frames: vec![root], awaiting: None, outcome: None };
        proof {
            assert(string_list_view(r.frames@[0].locals@) =~= Seq::<Seq<char>>::empty());
            assert(stmt_list_view(r.frames@[0].out@) =~= Seq::<StmtV>::empty());
            assert(r@.visited =~= Seq::<(Seq<char>, Option<Seq<char>>)>::empty());
            assert(r@.frames =~= seq![r.frames@[0].view()]);
        }
        r
    }
}

/// A copy of an optional string.
fn clone_opt(o: &Option<String>) -> (r: Option<String>)
    ensures
        opt_str(r) == opt_str(*o),
{
    match o {
        Some(s) => Some(copy_string(s)),
        None => None,
    }
}

/// Whether two optional strings have the same characters.
fn opt_eq(a: &Option<String>, b: &Option<String>) -> (r: bool)
    ensures
        r == (opt_str(*a) == opt_str(*b)),
{
    match (a, b) {
        (Some(x), Some(y)) => x.eq(y),
        (None, None) => true,
        _ => false,
    }
}

/// The set of the names in `v`.
proof fn lemma_name_set(v: Seq<String>)
    ensures
        name_set(v) == Set::new(|x: Seq<char>| string_list_view(v).contains(x)),
{
    assert forall|x: Seq<char>| name_set(v).contains(x) <==> string_list_view(v).contains(x) by {
        if name_set(v).contains(x) {
            let k = choose|k: int| 0 <= k < v.len() && v[k]@ == x;
            assert(string_list_view(v)[k] == x);
        }
        if string_list_view(v).contains(x) {
            let k = choose|k: int| 0 <= k < string_list_view(v).len() && string_list_view(v)[k] == x;
            assert(v[k]@ == x);
        }
    }
    assert(name_set(v) =~= Set::new(|x: Seq<char>| string_list_view(v).contains(x)));
}

impl ImportResolver {
    /// Whether the module `key` was already merged under `alias`.
    fn has_visited(&self, key: &String, alias: &Option<String>) -> (r: bool)
        ensures
            r == self@.visited.contains((key@, opt_str(*alias))),
    {
        let mut i: usize = 0;
        while i < self.visited.len()
            invariant
                i <= self.visited@.len(),
                forall|j: int| 0 <= j < i ==> self@.visited[j] != (key@, opt_str(*alias)),
            decreases self.visited@.len() - i,
        {
            if self.visited[i].0.eq(key) && opt_eq(&self.visited[i].1, alias) {
                assert(self@.visited[i as int] == (key@, opt_str(*alias)));
                return true;
            }
            i = i + 1;
        }
        false
    }

    /// One step of resolution: report the result, ask for an imported
    /// module, keep a statement, or finish a module.
    pub fn step(&mut self) -> (a: Action)
        requires
            old(self).ready(),
        ensures
            (final(self)@, a@) == step_spec(old(self)@),
    {
        let ghost st = self@;
        if self.outcome.is_some() {
            let mut taken: Option<Result<Vec<Stmt>, String>> = None;
            std::mem::swap(&mut self.outcome, &mut taken);
            self.frames = Vec::new();
            self.awaiting = None;
            proof {
                assert(self@.frames =~= Seq::<FrameV>::empty());
                assert(self@.visited =~= st.visited);
            }
            return match taken {
                Some(res) => Action::Finished(res),
                None => Action::Continue,
            };
        }
        let ghost n = st.frames.len();
        let mut top = match self.frames.pop() {
            Some(f) => f,
            None => {
                return Action::Continue;
            },
        };
        let ghost below = self.frames@;
        assert(top.view() == st.frames.last());
        if top.pending.len() > 0 {
            let s = top.pending.remove(0);
            proof {
                lemma_stmt_view(s);
                assert(stmt_list_view(top.pending@) =~= st.frames.last().pending.drop_first());
            }
            match s {
                Stmt::Import { path, alias } => {
                    let dir = copy_string(&top.dir);
                    self.frames.push(top);
                    self.awaiting = Some(alias);
                    let p = normalize_path(&path);
                    proof {
                        assert(self@.frames =~= st.frames.update(n - 1, top.view()));
                        assert(self@.visited =~= st.visited);
                    }
                    return Action::Load { dir, path: p, raw: path };
                },
                other => {
                    let ghost before = top.out@;
                    top.out.push(other);
                    self.frames.push(top);
                    proof {
                        assert(stmt_list_view(top.out@) =~= stmt_list_view(before).push(other@));
                        assert(self@.frames =~= st.frames.update(n - 1, top.view()));
                        assert(self@.visited =~= st.visited);
                    }
                    return Action::Continue;
                },
            }
        }
        if self.frames.len() == 0 {
            let out = top.out;
            let ghost ov = stmt_list_view(out@);
            let res = match validate_unique_functions(out.as_slice()) {
                Ok(()) => Ok(out),
                Err(m) => Err(m),
            };
            self.outcome = Some(res);
            proof {
                assert(self@.frames =~= Seq::<FrameV>::empty());
                assert(self@.visited =~= st.visited);
            }
            return Action::Continue;
        }
        let mut out = top.out;
        match &top.alias {
            Some(a) => {
                proof {
                    lemma_name_set(top.locals@);
                }
                apply_module_alias(&mut out, a.as_str(), &top.locals);
            },
            None => {},
        }
        let mut parent = match self.frames.pop() {
            Some(f) => f,
            None => {
                return Action::Continue;
            },
        };
        let ghost pout = parent.out@;
        parent.out.append(&mut out);
        self.frames.push(parent);
        proof {
            assert(stmt_list_view(parent.out@) =~= stmt_list_view(pout) + module_output(st.frames.last()));
            assert(self@.frames =~= st.frames.drop_last().update(n - 2, parent.view()));
            assert(self@.visited =~= st.visited);
        }
        Action::Continue
    }

    /// Hands the machine what was found for the module it asked for.
    pub fn supply(&mut self, ev: Event)
        requires
            old(self).waiting(),
            ev matches Event::Found { source, .. } ==> source@.len() < usize::MAX,
        ensures
            supplied(old(self)@, ev, final(self)@),
    {
        let ghost st = self@;
        let mut waiting: Option<Option<String>> = None;
        std::mem::swap(&mut self.awaiting, &mut waiting);
        let alias = match waiting {
            Some(a) => a,
            None => None,
        };
        proof {
            assert(self@.visited =~= st.visited);
            assert(self@.frames =~= st.frames);
        }
        match ev {
            Event::Failed(m) => {
                self.outcome = Some(Err(m));
            },
            Event::Found { key, dir, source } => {
                if self.has_visited(&key, &alias) {
                    return;
                }
                let ghost vbefore = self.visited@;
                self.visited.push((copy_string(&key), clone_opt(&alias)));
                proof {
                    assert(self@.visited =~= st.visited.push((key@, opt_str(alias))));
                }
                match load_module(key.as_str(), source.as_str()) {
                    Ok(program) => {
                        let stmts = program.statements;
                        let locals = local_functions(&stmts);
                        let frame = Frame { dir, pending: stmts, alias, locals, out: Vec::new() };
                        let ghost fbefore = self.frames@;
                        self.frames.push(frame);
                        proof {
                            assert(stmt_list_view(frame.out@) =~= Seq::<StmtV>::empty());
                            assert(self@.frames =~= st.frames.push(frame.view()));
                        }
                    },
                    Err(m) => {
                        self.outcome = Some(Err(m));
                    },
                }
            },
        }
    }
}

/// `s` without the prefix `p`, when it starts with it.
pub open spec fn strip_prefix(s: Seq<char>, p: Seq<char>) -> Option<Seq<char>> {
    if p.is_prefix_of(s) {
        Some(s.skip(p.len() as int))
    } else {
        None
    }
}

/// The module named by a standard-library import path (`std/name` or
/// `std::name`), when it is one.
pub open spec fn std_module(path: Seq<char>) -> Option<Seq<char>> {
    match strip_prefix(path, "std/"@) {
        Some(rest) => Some(rest),
        None => strip_prefix(path, "std::"@),
    }
}

/// The name of an embedded standard-library module: without the `std/` or
/// `std::` prefix and the `.alya` extension.
pub open spec fn std_clean_name(module: Seq<char>) -> Seq<char> {
    let c = match std_module(module) {
        Some(rest) => rest,
        None => module,
    };
    if ".alya"@.is_suffix_of(c) {
        c.take(c.len() - 5)
    } else {
        c
    }
}

/// The standard-library modules that the compiler carries with it.
pub open spec fn is_embedded_module(name: Seq<char>) -> bool {
    name == "math"@ || name == "time"@ || name == "os"@ || name == "json"@ || name == "mem"@ || name
        == "str"@ || name == "path"@ || name == "fs"@ || name == "hash"@ || name == "collections"@
        || name == "test"@ || name == "bench"@
}

/// Whether `cs` starts with the characters of `lit`.
fn starts_with(cs: &Vec<char>, lit: &str) -> (b: bool)
    ensures
        b == lit@.is_prefix_of(cs@),
{
    let l = chars_of(lit);
    if l.len() > cs.len() {
        return false;
    }
    let mut i: usize = 0;
    while i < l.len()
        invariant
            i <= l@.len() <= cs@.len(),
            l@ == lit@,
            forall|j: int| 0 <= j < i ==> l@[j] == cs@[j],
        decreases l@.len() - i,
    {
        if l[i] != cs[i] {
            return false;
        }
        i = i + 1;
    }
    assert(l@ =~= cs@.take(l@.len() as int));
    true
}

/// The characters of `cs` from `from` on.
fn chars_from(cs: &Vec<char>, from: usize) -> (r: Vec<char>)
    requires
        from <= cs@.len(),
    ensures
        r@ == cs@.skip(from as int),
{
    let mut out: Vec<char> = Vec::new();
    let mut i = from;
    while i < cs.len()
        invariant
            from <= i <= cs@.len(),
            out@ == cs@.subrange(from as int, i as int),
        decreases cs@.len() - i,
    {
        out.push(cs[i]);
        i = i + 1;
        assert(out@ =~= cs@.subrange(from as int, i as int));
    }
    assert(out@ =~= cs@.skip(from as int));
    out
}

/// The module named by a standard-library import path (`std/name` or
/// `std::name`), when it is one.
pub fn std_module_name(path: &str) -> (r: Option<String>)
    ensures
        opt_str(r) == std_module(path@),
{
    let cs = chars_of(path);
    proof {
        reveal_strlit("std/");
        reveal_strlit("std::");
    }
    if starts_with(&cs, "std/") {
        let rest = chars_from(&cs, 4);
        Some(string_from_chars(rest.as_slice()))
    } else if starts_with(&cs, "std::") {
        let rest = chars_from(&cs, 5);
        Some(string_from_chars(rest.as_slice()))
    } else {
        None
    }
}

/// The embedded standard-library module that `module` names, when the
/// compiler carries one by that name.
pub fn embedded_stdlib_name(module: &str) -> (r: Option<String>)
    ensures
        r matches Some(n) ==> n@ == std_clean_name(module@) && is_embedded_module(n@),
        r is None ==> !is_embedded_module(std_clean_name(module@)),
{
    let c = match std_module_name(module) {
        Some(rest) => chars_of(rest.as_str()),
        None => chars_of(module),
    };
    let mut name = c;
    let n = name.len();
    proof {
        reveal_strlit(".alya");
    }
    if n >= 5 {
        let tail = chars_from(&name, n - 5);
        if chars_eq_str(&tail, ".alya") {
            assert(".alya"@.is_suffix_of(name@)) by {
                assert(name@.subrange(n - 5, n as int) =~= tail@);
            }
            name.truncate(n - 5);
            assert(name@ =~= c@.take(n - 5));
        } else {
            assert(!".alya"@.is_suffix_of(c@)) by {
                if ".alya"@.is_suffix_of(c@) {
                    assert(c@.subrange(n - 5, n as int) =~= tail@);
                }
            }
        }
    }
    let known = chars_eq_str(&name, "math") || chars_eq_str(&name, "time") || chars_eq_str(&name, "os") || chars_eq_str(&name, "json") || chars_eq_str(&name, "mem") || chars_eq_str(&name, "str") || chars_eq_str(&name, "path") || chars_eq_str(&name, "fs") || chars_eq_str(&name, "hash") || chars_eq_str(&name, "collections") || chars_eq_str(&name, "test") || chars_eq_str(&name, "bench");
    if known {
        Some(string_from_chars(name.as_slice()))
    } else {
        None
    }
}

} // verus!
