//! Dockerfiles: reading the text into instructions, and running the
//! instructions that shape an image's configuration (base image, working
//! directory, environment, exposed ports, entrypoint and command).
use vstd::prelude::*;
use crate::buildx::join_with;
use crate::errors::{DockerError, DockerErrorKind};
use crate::registry::{trim_quotes, trim_quotes_of};
use crate::storage::{join_path, path_join};
use crate::text::{
    append_chars, append_str, char_vecs, chars_of, concat_str, slice_chars, split_chars, split_once_chars,
    split_once_spec, split_spec, str_eq, string_from_chars, trim_chars, trim_spec, words, words_of,
};
use crate::tools::debug_text;
use crate::yaml::{assoc_insert, assoc_put};

verus! {

broadcast use vstd::string::group_string_axioms;

/// An instruction: its keyword and its arguments.
#[derive(Debug, Clone)]
pub struct Instruction {
    pub keyword: String,
    pub args: String,
}

/// The view of an instruction: keyword and arguments.
pub type InstructionView = (Seq<char>, Seq<char>);

impl DeepView for Instruction {
    type V = InstructionView;

    open spec fn deep_view(&self) -> InstructionView {
        (self.keyword@, self.args@)
    }
}

/// A Dockerfile read into its instructions, in order.
#[derive(Debug, Clone)]
pub struct Dockerfile {
    pub instructions: Vec<Instruction>,
}

/// `k` is an instruction keyword of the Dockerfile format (in upper case).
pub open spec fn known_keyword(k: Seq<char>) -> bool {
    ||| k == "FROM"@
    ||| k == "RUN"@
    ||| k == "CMD"@
    ||| k == "LABEL"@
    ||| k == "MAINTAINER"@
    ||| k == "EXPOSE"@
    ||| k == "ENV"@
    ||| k == "ADD"@
    ||| k == "COPY"@
    ||| k == "ENTRYPOINT"@
    ||| k == "VOLUME"@
    ||| k == "USER"@
    ||| k == "WORKDIR"@
    ||| k == "ARG"@
    ||| k == "ONBUILD"@
    ||| k == "STOPSIGNAL"@
    ||| k == "HEALTHCHECK"@
    ||| k == "SHELL"@
}

/// Whether `k` is an instruction keyword.
fn is_known_keyword(k: &str) -> (b: bool)
    ensures
        b == known_keyword(k@),
{
    str_eq(k, "FROM") || str_eq(k, "RUN") || str_eq(k, "CMD") || str_eq(k, "LABEL") || str_eq(k, "MAINTAINER")
        || str_eq(k, "EXPOSE") || str_eq(k, "ENV") || str_eq(k, "ADD") || str_eq(k, "COPY") || str_eq(
        k,
        "ENTRYPOINT",
    ) || str_eq(k, "VOLUME") || str_eq(k, "USER") || str_eq(k, "WORKDIR") || str_eq(k, "ARG") || str_eq(
        k,
        "ONBUILD",
    ) || str_eq(k, "STOPSIGNAL") || str_eq(k, "HEALTHCHECK") || str_eq(k, "SHELL")
}

/// `c` in upper case, when it is an ASCII letter.
pub open spec fn ascii_upper(c: char) -> char {
    if 'a' <= c && c <= 'z' {
        ((c as u32) - 32) as char
    } else {
        c
    }
}

/// The word before the first space of a logical line, and the rest,
/// trimmed.
pub open spec fn line_parts(line: Seq<char>) -> (Seq<char>, Seq<char>) {
    match split_once_spec(line, ' ') {
        Some((k, rest)) => (k, trim_spec(rest)),
        None => (line, seq![]),
    }
}

/// The instruction a logical line holds: its first word in upper case
/// (keywords are not case-sensitive), and the rest, trimmed.
pub open spec fn instruction_of(line: Seq<char>) -> InstructionView {
    (line_parts(line).0.map_values(|c: char| ascii_upper(c)), line_parts(line).1)
}

/// Reading so far: the instructions read, the unknown keyword met (if
/// any), and the start of an instruction continued on the next line.
pub type ParseState = (Seq<InstructionView>, Option<Seq<char>>, Seq<char>);

/// The logical line `full` ends: its instruction is added, or reading
/// stops at its unknown keyword (as written).
pub open spec fn finish_line(instrs: Seq<InstructionView>, full: Seq<char>) -> ParseState {
    let ins = instruction_of(full);
    if known_keyword(ins.0) {
        (instrs.push(ins), None, seq![])
    } else {
        (instrs, Some(line_parts(full).0), seq![])
    }
}

/// `s` with its ASCII letters in upper case.
fn upper_chars(s: &Vec<char>) -> (r: Vec<char>)
    ensures
        r@ == s@.map_values(|c: char| ascii_upper(c)),
{
    let mut r: Vec<char> = Vec::new();
    let mut i: usize = 0;
    while i < s.len()
        invariant
            i <= s.len(),
            r@ == s@.take(i as int).map_values(|c: char| ascii_upper(c)),
        decreases s.len() - i,
    {
        let c = s[i];
        let u = if 'a' <= c && c <= 'z' {
            let v: u8 = (c as u8) - 32;
            v as char
        } else {
            c
        };
        r.push(u);
        assert(s@.take(i + 1).map_values(|c: char| ascii_upper(c)) =~= s@.take(i as int).map_values(
            |c: char| ascii_upper(c),
        ).push(ascii_upper(s@[i as int])));
        i = i + 1;
    }
    assert(s@.take(s.len() as int) =~= s@);
    r
}

/// Reading the physical line `raw`: once an unknown keyword was met nothing
/// changes; blank lines and comments (`#`) outside a continued instruction
/// are skipped; a line ending with `\` continues on the next line (joined
/// with a space); any other line ends an instruction.
pub open spec fn parse_step(st: ParseState, raw: Seq<char>) -> ParseState {
    if st.1 is Some {
        st
    } else {
        let t = trim_spec(raw);
        if st.2.len() == 0 && (t.len() == 0 || t[0] == '#') {
            st
        } else {
            let full = if st.2.len() == 0 {
                t
            } else {
                st.2 + " "@ + t
            };
            if full.len() > 0 && full.last() == '\\' {
                (st.0, None, trim_spec(full.drop_last()))
            } else {
                finish_line(st.0, full)
            }
        }
    }
}

/// Reading the physical lines `lines` in order.
pub open spec fn parse_lines(lines: Seq<Seq<char>>) -> ParseState
    decreases lines.len(),
{
    if lines.len() == 0 {
        (seq![], None, seq![])
    } else {
        parse_step(parse_lines(lines.drop_last()), lines.last())
    }
}

/// What reading the Dockerfile text gives: its instructions, or the
/// unknown keyword that stopped it. An instruction still continued at the
/// end of the text ends there.
pub open spec fn parse_spec(text: Seq<char>) -> Result<Seq<InstructionView>, Seq<char>> {
    let st = parse_lines(split_spec(text, '\n'));
    let done = if st.1 is None && st.2.len() > 0 {
        finish_line(st.0, st.2)
    } else {
        st
    };
    match done.1 {
        Some(k) => Err(k),
        None => Ok(done.0),
    }
}

/// Ends the logical line `full`, as `finish_line` says.
fn finish_line_exec(instrs: &mut Vec<Instruction>, bad: &mut Option<String>, full: &Vec<char>)
    requires
        *old(bad) is None,
    ensures
        (final(instrs).deep_view(), final(bad).deep_view(), Seq::<char>::empty()) == finish_line(
            old(instrs).deep_view(),
            full@,
        ),
{
    let (k, a) = match split_once_chars(full, ' ') {
        Some((k, rest)) => (k, trim_chars(&rest)),
        None => (slice_chars(full, 0, full.len()), Vec::new()),
    };
    assert(full@.subrange(0, full@.len() as int) =~= full@);
    let ku = upper_chars(&k);
    let ks = string_from_chars(&ku);
    if is_known_keyword(ks.as_str()) {
        let ghost i0 = instrs.deep_view();
        let ins = Instruction { keyword: ks, args: string_from_chars(&a) };
        assert(ins.deep_view() == instruction_of(full@));
        instrs.push(ins);
        assert(instrs.deep_view() =~= i0.push(instruction_of(full@)));
    } else {
        *bad = Some(string_from_chars(&k));
    }
}

/// Reads a Dockerfile: its instructions in order. Fails with the first
/// unknown keyword.
pub fn parse_dockerfile(content: &str) -> (r: Result<Dockerfile, DockerError>)
    ensures
        match parse_spec(content@) {
            Ok(instrs) => r matches Ok(d) && d.instructions.deep_view() == instrs,
            Err(k) => r matches Err(e) && (*e.kind matches DockerErrorKind::ContainerError { reason }
                && reason@ == "Failed to parse Dockerfile: unknown instruction "@ + k),
        },
{
    let cs = chars_of(content);
    let lines = split_chars(&cs, '\n');
    let ghost ls = char_vecs(lines@);
    let mut instrs: Vec<Instruction> = Vec::new();
    let mut bad: Option<String> = None;
    let mut pending: Vec<char> = Vec::new();
    let mut i: usize = 0;
    assert(ls.take(0) =~= Seq::<Seq<char>>::empty());
    while i < lines.len()
        invariant
            i <= lines.len(),
            ls == char_vecs(lines@),
            ls == split_spec(content@, '\n'),
            (instrs.deep_view(), bad.deep_view(), pending@) == parse_lines(ls.take(i as int)),
        decreases lines.len() - i,
    {
        assert(ls.take(i + 1).drop_last() =~= ls.take(i as int));
        assert(ls.take(i + 1).last() == lines@[i as int]@);
        if bad.is_none() {
            let t = trim_chars(&lines[i]);
            if pending.len() == 0 && (t.len() == 0 || t[0] == '#') {
            } else {
                let mut full: Vec<char> = Vec::new();
                if pending.len() == 0 {
                    full = t;
                } else {
                    proof {
                        reveal_strlit(" ");
                    }
                    append_chars(&mut full, &pending);
                    full.push(' ');
                    append_chars(&mut full, &t);
                    assert(full@ =~= pending@ + " "@ + t@);
                }
                if full.len() > 0 && full[full.len() - 1] == '\\' {
                    let head = slice_chars(&full, 0, full.len() - 1);
                    assert(head@ =~= full@.drop_last());
                    pending = trim_chars(&head);
                } else {
                    finish_line_exec(&mut instrs, &mut bad, &full);
                    pending = Vec::new();
                }
            }
        }
        i = i + 1;
    }
    assert(ls.take(lines.len() as int) =~= ls);
    if bad.is_none() && pending.len() > 0 {
        finish_line_exec(&mut instrs, &mut bad, &pending);
    }
    match bad {
        Some(k) => {
            let m = concat_str("Failed to parse Dockerfile: unknown instruction ", k.as_str());
            Err(DockerError::container_error(m.as_str()))
        },
        None => Ok(Dockerfile { instructions: instrs }),
    }
}

// ---------------------------------------------------------------------------
// Running the instructions.

/// The state of a Dockerfile's execution.
#[derive(Debug, Clone)]
pub struct ExecutionState {
    pub working_dir: String,
    pub env_vars: Vec<(String, String)>,
    pub base_image: Option<String>,
    pub exposed_ports: Vec<String>,
    pub entrypoint: Option<String>,
    pub cmd: Option<String>,
}

/// The view of an execution state: working directory, environment, base
/// image, exposed ports, entrypoint, command.
pub type ExecutionView = (
    Seq<char>,
    Seq<(Seq<char>, Seq<char>)>,
    Option<Seq<char>>,
    Seq<Seq<char>>,
    Option<Seq<char>>,
    Option<Seq<char>>,
);

impl DeepView for ExecutionState {
    type V = ExecutionView;

    open spec fn deep_view(&self) -> ExecutionView {
        (
            self.working_dir@,
            self.env_vars.deep_view(),
            self.base_image.deep_view(),
            self.exposed_ports.deep_view(),
            self.entrypoint.deep_view(),
            self.cmd.deep_view(),
        )
    }
}

/// The variable an `ENV` instruction sets: `KEY=VALUE` (the value
/// unquoted) or `KEY VALUE`, trimmed; nothing for anything else.
pub open spec fn env_pair(args: Seq<char>) -> Option<(Seq<char>, Seq<char>)> {
    match split_once_spec(args, '=') {
        Some((k, v)) => Some((trim_spec(k), trim_quotes(trim_spec(v)))),
        None => match split_once_spec(args, ' ') {
            Some((k, v)) => Some((k, trim_spec(v))),
            None => None,
        },
    }
}

/// The elements of an exec form `["a", "b"]`: the text between the
/// brackets split at commas, each element trimmed and unquoted; nothing
/// when the arguments are not in brackets.
pub open spec fn exec_items(args: Seq<char>) -> Option<Seq<Seq<char>>> {
    if args.len() >= 2 && args[0] == '[' && args.last() == ']' {
        Some(
            split_spec(args.subrange(1, args.len() - 1), ',').map_values(
                |p: Seq<char>| trim_quotes(trim_spec(p)),
            ),
        )
    } else {
        None
    }
}

/// An exec form as a list of its elements, `[a, b]`; other arguments as
/// written.
pub open spec fn exec_text(args: Seq<char>) -> Seq<char> {
    match exec_items(args) {
        Some(items) => "["@ + join_with(items, ", "@) + "]"@,
        None => args,
    }
}

/// The state before any instruction: in `/`, with nothing else set.
pub open spec fn initial_state() -> ExecutionView {
    ("/"@, seq![], None, seq![], None, None)
}

/// The state after the instruction `ins`: `FROM` sets the base image,
/// `WORKDIR` moves the working directory (relative to the current one),
/// `ENV` sets a variable, `EXPOSE` adds its ports, `ENTRYPOINT` sets the
/// entrypoint as a list of its elements, and `CMD` sets the command: as
/// written, or, after an entrypoint, as the list of the entrypoint's
/// arguments. Other instructions leave the state alone.
pub open spec fn apply_instruction(s: ExecutionView, ins: InstructionView) -> ExecutionView {
    let (k, a) = ins;
    if k == "FROM"@ {
        (s.0, s.1, Some(a), s.3, s.4, s.5)
    } else if k == "WORKDIR"@ {
        (path_join(s.0, a), s.1, s.2, s.3, s.4, s.5)
    } else if k == "ENV"@ {
        match env_pair(a) {
            Some((key, v)) => (s.0, assoc_insert(s.1, key, v), s.2, s.3, s.4, s.5),
            None => s,
        }
    } else if k == "EXPOSE"@ {
        (s.0, s.1, s.2, s.3 + words(a), s.4, s.5)
    } else if k == "ENTRYPOINT"@ {
        (s.0, s.1, s.2, s.3, Some(exec_text(a)), s.5)
    } else if k == "CMD"@ {
        (s.0, s.1, s.2, s.3, s.4, Some(if s.4 is Some { exec_text(a) } else { a }))
    } else {
        s
    }
}

/// The state after the instructions `instrs`, in order.
pub open spec fn run_instructions(instrs: Seq<InstructionView>) -> ExecutionView
    decreases instrs.len(),
{
    if instrs.len() == 0 {
        initial_state()
    } else {
        apply_instruction(run_instructions(instrs.drop_last()), instrs.last())
    }
}

/// The elements of an exec form, as `exec_items` says.
fn exec_items_of(args: &Vec<char>) -> (r: Option<Vec<Vec<char>>>)
    ensures
        match exec_items(args@) {
            Some(items) => r matches Some(v) && char_vecs(v@) == items,
            None => r is None,
        },
{
    if args.len() >= 2 && args[0] == '[' && args[args.len() - 1] == ']' {
        let inner = slice_chars(args, 1, args.len() - 1);
        let pieces = split_chars(&inner, ',');
        let ghost ps = char_vecs(pieces@);
        let mut out: Vec<Vec<char>> = Vec::new();
        let mut i: usize = 0;
        while i < pieces.len()
            invariant
                i <= pieces.len(),
                ps == char_vecs(pieces@),
                char_vecs(out@) == ps.take(i as int).map_values(|p: Seq<char>| trim_quotes(trim_spec(p))),
            decreases pieces.len() - i,
        {
            let ghost o0 = char_vecs(out@);
            let t = trim_chars(&pieces[i]);
            let u = trim_quotes_of(&t);
            out.push(u);
            assert(ps[i as int] == pieces@[i as int]@);
            assert(char_vecs(out@) =~= o0.push(trim_quotes(trim_spec(ps[i as int]))));
            assert(ps.take(i + 1).map_values(|p: Seq<char>| trim_quotes(trim_spec(p))) =~= ps.take(
                i as int,
            ).map_values(|p: Seq<char>| trim_quotes(trim_spec(p))).push(trim_quotes(trim_spec(ps[i as int]))));
            i = i + 1;
        }
        assert(ps.take(pieces.len() as int) =~= ps);
        Some(out)
    } else {
        None
    }
}

/// The arguments as `exec_text` writes them.
fn exec_text_of(args: &String) -> (r: String)
    ensures
        r@ == exec_text(args@),
{
    let cs = chars_of(args.as_str());
    match exec_items_of(&cs) {
        None => args.clone(),
        Some(items) => {
            let ghost its = char_vecs(items@);
            let mut out = chars_of("[");
            let mut i: usize = 0;
            proof {
                reveal_strlit("[");
                reveal_strlit(", ");
                reveal_strlit("]");
            }
            assert(its.take(0) =~= Seq::<Seq<char>>::empty());
            while i < items.len()
                invariant
                    i <= items.len(),
                    its == char_vecs(items@),
                    out@ == "["@ + join_with(its.take(i as int), ", "@),
                decreases items.len() - i,
            {
                assert(its.take(i + 1).drop_last() =~= its.take(i as int));
                assert(its.take(i + 1).last() == items@[i as int]@);
                if i > 0 {
                    append_str(&mut out, ", ");
                }
                append_chars(&mut out, &items[i]);
                proof {
                    if i == 0 {
                        assert(its.take(1).len() == 1);
                    }
                }
                assert(out@ =~= "["@ + join_with(its.take(i + 1), ", "@));
                i = i + 1;
            }
            assert(its.take(items.len() as int) =~= its);
            append_str(&mut out, "]");
            string_from_chars(&out)
        },
    }
}

/// Applies one instruction to the state, as `apply_instruction` says.
fn apply_exec(s: &mut ExecutionState, ins: &Instruction)
    ensures
        final(s).deep_view() == apply_instruction(old(s).deep_view(), ins.deep_view()),
{
    proof {
        reveal_strlit("FROM");
        reveal_strlit("WORKDIR");
        reveal_strlit("ENV");
        reveal_strlit("EXPOSE");
        reveal_strlit("ENTRYPOINT");
        reveal_strlit("CMD");
    }
    let k = ins.keyword.as_str();
    if str_eq(k, "FROM") {
        s.base_image = Some(ins.args.clone());
    } else if str_eq(k, "WORKDIR") {
        s.working_dir = join_path(s.working_dir.as_str(), ins.args.as_str());
    } else if str_eq(k, "ENV") {
        let a = chars_of(ins.args.as_str());
        match split_once_chars(&a, '=') {
            Some((key, v)) => {
                let kt = trim_chars(&key);
                let vt = trim_chars(&v);
                let vq = trim_quotes_of(&vt);
                assoc_put(&mut s.env_vars, string_from_chars(&kt), string_from_chars(&vq));
            },
            None => match split_once_chars(&a, ' ') {
                Some((key, v)) => {
                    let vt = trim_chars(&v);
                    assoc_put(&mut s.env_vars, string_from_chars(&key), string_from_chars(&vt));
                },
                None => {},
            },
        }
    } else if str_eq(k, "EXPOSE") {
        let a = chars_of(ins.args.as_str());
        let ws = words_of(&a);
        let ghost p0 = s.exposed_ports.deep_view();
        let ghost s0 = s.deep_view();
        let mut i: usize = 0;
        while i < ws.len()
            invariant
                i <= ws.len(),
                s.working_dir@ == s0.0,
                s.env_vars.deep_view() == s0.1,
                s.base_image.deep_view() == s0.2,
                s.entrypoint.deep_view() == s0.4,
                s.cmd.deep_view() == s0.5,
                char_vecs(ws@) == words(ins.args@),
                s.exposed_ports.deep_view() == p0 + char_vecs(ws@).take(i as int),
            decreases ws.len() - i,
        {
            let ghost q0 = s.exposed_ports.deep_view();
            s.exposed_ports.push(string_from_chars(&ws[i]));
            assert(s.exposed_ports.deep_view() =~= q0.push(ws@[i as int]@));
            assert(char_vecs(ws@).take(i + 1) =~= char_vecs(ws@).take(i as int).push(ws@[i as int]@));
            i = i + 1;
        }
        assert(char_vecs(ws@).take(ws.len() as int) =~= char_vecs(ws@));
    } else if str_eq(k, "ENTRYPOINT") {
        s.entrypoint = Some(exec_text_of(&ins.args));
    } else if str_eq(k, "CMD") {
        if s.entrypoint.is_some() {
            s.cmd = Some(exec_text_of(&ins.args));
        } else {
            s.cmd = Some(ins.args.clone());
        }
    }
}

/// Runs the instructions of `dockerfile` in the build context `context`
/// (a directory when `context_is_dir`): the state starts in `/` with
/// nothing set, and each instruction changes it as `apply_instruction`
/// says. Fails when the context is not a directory.
pub fn execute_dockerfile(dockerfile: &Dockerfile, context: &str, context_is_dir: bool) -> (r: Result<
    ExecutionState,
    DockerError,
>)
    ensures
        context_is_dir ==> (r matches Ok(s) && s.deep_view() == run_instructions(
            dockerfile.instructions.deep_view(),
        )),
        !context_is_dir ==> (r matches Err(e) && (*e.kind matches DockerErrorKind::StorageReadFailed {
            path,
        } && path@ == "Build context directory not found: "@ + debug_text(context@))),
{
    if !context_is_dir {
        let d = crate::tools::debug_str(context);
        let m = concat_str("Build context directory not found: ", d.as_str());
        return Err(DockerError::storage_read_failed(m.as_str()));
    }
    let mut s = ExecutionState {
        working_dir: "/".to_string(),
        env_vars: Vec::new(),
        base_image: None,
        exposed_ports: Vec::new(),
        entrypoint: None,
        cmd: None,
    };
    assert(s.deep_view() =~= initial_state());
    let ghost is = dockerfile.instructions.deep_view();
    let mut i: usize = 0;
    assert(is.take(0) =~= Seq::<InstructionView>::empty());
    while i < dockerfile.instructions.len()
        invariant
            i <= dockerfile.instructions.len(),
            is == dockerfile.instructions.deep_view(),
            s.deep_view() == run_instructions(is.take(i as int)),
        decreases dockerfile.instructions.len() - i,
    {
        assert(is.take(i + 1).drop_last() =~= is.take(i as int));
        assert(is.take(i + 1).last() == dockerfile.instructions@[i as int].deep_view());
        apply_exec(&mut s, &dockerfile.instructions[i]);
        i = i + 1;
    }
    assert(is.take(dockerfile.instructions.len() as int) =~= is);
    Ok(s)
}

} // verus!
