//! The agent harness: how a child is launched, what it is told, and what its output means.
//!
//! A harness speaks JSON, one document a line, on its standard input and output. It is told a turn,
//! works, and reports the turn's result, after which it waits for the next one.

use vstd::prelude::*;

use crate::json;
use crate::json::Json;
use crate::json::JsonTree;
use crate::table;
use crate::text;

verus! {

/// The longest line that a harness may write: 16 MiB.
pub const MAX_LINE_BYTES: usize = 16_777_216;

/// What a harness is launched with.
#[derive(Debug)]
pub struct HarnessSpec {
    /// The command line; the first element is the program.
    pub argv: Vec<String>,
    pub cwd: String,
    pub env: Vec<(String, String)>,
    /// The first turn, the task.
    pub initial_prompt: String,
    /// The file that diagnostics are appended to, if any.
    pub stderr_log: Option<String>,
}

/// The model of a launch.
#[verifier::ext_equal]
pub struct SpecV {
    pub argv: Seq<Seq<char>>,
    pub cwd: Seq<char>,
    pub env: Seq<(Seq<char>, Seq<char>)>,
    pub initial_prompt: Seq<char>,
    pub stderr_log: Option<Seq<char>>,
}

/// The models of pairs of texts.
pub open spec fn pairs(v: Seq<(String, String)>) -> Seq<(Seq<char>, Seq<char>)> {
    Seq::new(v.len(), |i: int| (v[i].0@, v[i].1@))
}

impl View for HarnessSpec {
    type V = SpecV;

    open spec fn view(&self) -> SpecV {
        SpecV {
            argv: text::texts(self.argv@),
            cwd: self.cwd@,
            env: pairs(self.env@),
            initial_prompt: self.initial_prompt@,
            stderr_log: text::opt_text(self.stderr_log),
        }
    }
}

/// Something that a harness reports.
#[derive(Debug)]
pub enum HarnessEvent {
    /// Text produced within a turn.
    AssistantText(String),
    /// The turn is finished.
    TurnComplete { result: String, is_error: bool },
    /// The process is gone.
    Exited(Option<i32>),
}

/// The model of a report.
pub enum HarnessV {
    AssistantText(Seq<char>),
    TurnComplete { result: Seq<char>, is_error: bool },
    Exited(Option<i32>),
}

impl View for HarnessEvent {
    type V = HarnessV;

    open spec fn view(&self) -> HarnessV {
        match *self {
            HarnessEvent::AssistantText(t) => HarnessV::AssistantText(t@),
            HarnessEvent::TurnComplete { result, is_error } => HarnessV::TurnComplete {
                result: result@,
                is_error,
            },
            HarnessEvent::Exited(c) => HarnessV::Exited(c),
        }
    }
}

// ----- the command line -----

/// How many characters at the beginning of `s` are not white space.
pub open spec fn word_len(s: Seq<char>) -> nat
    decreases s.len(),
{
    if s.len() == 0 || text::is_space(s[0]) {
        0
    } else {
        1 + word_len(s.skip(1))
    }
}

/// The words of `s`: what stands between white space.
pub open spec fn words(s: Seq<char>) -> Seq<Seq<char>>
    decreases s.len(),
{
    if s.len() == 0 {
        Seq::empty()
    } else if text::is_space(s[0]) {
        words(s.skip(1))
    } else if word_len(s) <= s.len() {
        seq![s.take(word_len(s) as int)] + words(s.skip(word_len(s) as int))
    } else {
        Seq::empty()
    }
}

proof fn lemma_word_len(s: Seq<char>)
    ensures
        word_len(s) <= s.len(),
    decreases s.len(),
{
    if s.len() > 0 && !text::is_space(s[0]) {
        lemma_word_len(s.skip(1));
    }
}

/// Splits a text at white space.
pub fn split_whitespace(s: &str) -> (r: Vec<String>)
    ensures
        text::texts(r@) == words(s@),
{
    let v = text::chars_of(s);
    let mut out: Vec<String> = Vec::new();
    let mut i: usize = 0;
    assert(v@.skip(0) =~= v@);
    while i < v.len()
        invariant
            i <= v.len(),
            v@ == s@,
            text::texts(out@) + words(v@.skip(i as int)) == words(v@),
        decreases v.len() - i,
    {
        let ghost rest = v@.skip(i as int);
        if text::char_is_space(v[i]) {
            assert(rest.skip(1) =~= v@.skip(i + 1));
            i = i + 1;
        } else {
            let start: usize = i;
            let ghost n = word_len(rest);
            proof {
                lemma_word_len(rest);
            }
            assert(v@.skip(i as int).skip(0) =~= rest);
            while i < v.len() && !text::char_is_space(v[i])
                invariant
                    start <= i <= v.len(),
                    rest == v@.skip(start as int),
                    n == word_len(rest),
                    n <= rest.len(),
                    n == (i - start) + word_len(v@.skip(i as int)),
                    i == start ==> start < v.len() && !text::is_space(v@[start as int]),
                decreases v.len() - i,
            {
                assert(v@.skip(i as int).skip(1) =~= v@.skip(i + 1));
                i = i + 1;
            }
            assert(n == i - start);
            let word = s.substring_char(start, i);
            let ghost before = text::texts(out@);
            out.push(word.to_owned());
            assert(rest.take(n as int) =~= word@);
            assert(text::texts(out@) =~= before.push(word@));
            assert(rest.skip(n as int) =~= v@.skip(i as int));
            assert(before + (seq![word@] + words(v@.skip(i as int))) =~= text::texts(out@) + words(
                v@.skip(i as int),
            ));
        }
    }
    assert(v@.skip(i as int) =~= Seq::<char>::empty());
    assert(text::texts(out@) + Seq::<Seq<char>>::empty() =~= text::texts(out@));
    out
}

/// The command line of a harness: the override, word by word, where it has any words; else the
/// built-in program, which reads and writes JSON line by line, with the requested permissions.
pub open spec fn argv_of(
    harness_cmd: Option<Seq<char>>,
    program: Seq<char>,
    permission_mode: Option<Seq<char>>,
    skip_permissions: bool,
) -> Seq<Seq<char>> {
    if harness_cmd matches Some(cmd) && words(cmd).len() > 0 {
        words(harness_cmd->0)
    } else {
        let base = seq![
            program,
            "--print"@,
            "--input-format"@,
            "stream-json"@,
            "--output-format"@,
            "stream-json"@,
            "--verbose"@,
        ];
        let mode = match permission_mode {
            Some(m) => seq!["--permission-mode"@, m],
            None => Seq::empty(),
        };
        let skip = if skip_permissions {
            seq!["--dangerously-skip-permissions"@]
        } else {
            Seq::empty()
        };
        base + mode + skip
    }
}

fn put(v: &mut Vec<String>, s: &str)
    ensures
        text::texts(final(v)@) == text::texts(old(v)@).push(s@),
{
    v.push(s.to_owned());
    assert(text::texts(v@) =~= text::texts(old(v)@).push(s@));
}

/// The command line of a harness. `harness_cmd` overrides it unless it is blank; `program` is the
/// built-in one, whose name is left to the caller.
pub fn claude_argv(
    harness_cmd: Option<&str>,
    program: &str,
    permission_mode: Option<&str>,
    skip_permissions: bool,
) -> (r: Vec<String>)
    ensures
        text::texts(r@) == argv_of(
            text::opt_str(harness_cmd),
            program@,
            text::opt_str(permission_mode),
            skip_permissions,
        ),
{
    if let Some(cmd) = harness_cmd {
        let given = split_whitespace(cmd);
        if given.len() > 0 {
            assert(words(cmd@).len() == given@.len());
            return given;
        }
        assert(words(cmd@).len() == 0) by {
            assert(text::texts(given@).len() == 0);
        }
    }
    let mut v: Vec<String> = Vec::new();
    put(&mut v, program);
    put(&mut v, "--print");
    put(&mut v, "--input-format");
    put(&mut v, "stream-json");
    put(&mut v, "--output-format");
    put(&mut v, "stream-json");
    put(&mut v, "--verbose");
    if let Some(m) = permission_mode {
        put(&mut v, "--permission-mode");
        put(&mut v, m);
    }
    if skip_permissions {
        put(&mut v, "--dangerously-skip-permissions");
    }
    assert(text::texts(v@) =~= argv_of(
        text::opt_str(harness_cmd),
        program@,
        text::opt_str(permission_mode),
        skip_permissions,
    ));
    v
}

/// The command line of a harness without special permissions; the name of the built-in program is
/// left to the caller.
pub fn default_claude_argv(harness_cmd: Option<&str>, program: &str) -> (r: Vec<String>)
    ensures
        text::texts(r@) == argv_of(text::opt_str(harness_cmd), program@, None, false),
{
    claude_argv(harness_cmd, program, None, false)
}

/// A launch: the program, its arguments, and the line to write to it first.
pub struct Launch {
    pub program: String,
    pub args: Vec<String>,
    pub first_line: Option<String>,
}

/// Whether this is what launching a harness takes.
pub open spec fn launched_as(spec: SpecV, r: Result<Launch, String>) -> bool {
    match r {
        Ok(l) => {
            &&& spec.argv.len() > 0
            &&& l.program@ == spec.argv[0]
            &&& text::texts(l.args@) == spec.argv.skip(1)
            &&& text::opt_text(l.first_line) == if spec.initial_prompt.len() == 0 {
                None
            } else {
                Some(turn_text(spec.initial_prompt))
            }
        },
        Err(e) => spec.argv.len() == 0 && e@ == "empty harness argv"@,
    }
}

/// What launching a harness takes. Refused where there is no program; no line is written first where
/// there is no task.
pub fn launch(spec: &HarnessSpec) -> (r: Result<Launch, String>)
    ensures
        launched_as(spec@, r),
{
    if spec.argv.len() == 0 {
        return Err("empty harness argv".to_owned());
    }
    let mut args = text::texts_copy(&spec.argv);
    let ghost all = args@;
    assert(text::texts(all).len() == all.len());
    let program = args.remove(0);
    assert(program@ == text::texts(all)[0]);
    assert(text::texts(args@) =~= text::texts(all).skip(1));
    let first_line = if spec.initial_prompt.as_str().is_empty() {
        None
    } else {
        Some(turn_line(spec.initial_prompt.as_str()))
    };
    Ok(Launch { program, args, first_line })
}

// ----- what a harness is told -----

/// The line that tells a harness a turn.
pub open spec fn turn_text(turn: Seq<char>) -> Seq<char> {
    r#"{"message":{"content":[{"text":"#@ + json::quoted(turn)
        + r#","type":"text"}],"role":"user"},"type":"user"}"#@ + "\n"@
}

/// The line that tells a harness a turn.
pub fn turn_line(turn: &str) -> (r: String)
    ensures
        r@ == turn_text(turn@),
{
    r#"{"message":{"content":[{"text":"#.to_owned().concat(json::quote(turn).as_str()).concat(
        r#","type":"text"}],"role":"user"},"type":"user"}"#,
    ).concat("\n")
}

/// A turn is told in one line, whatever the turn holds: the line end at its end is the only one.
pub proof fn law_turn_is_one_line(turn: Seq<char>)
    ensures
        turn_text(turn).len() > 0,
        turn_text(turn).last() == '\n',
        !turn_text(turn).drop_last().contains('\n'),
{
    let a = r#"{"message":{"content":[{"text":"#@;
    let q = json::quoted(turn);
    let b = r#","type":"text"}],"role":"user"},"type":"user"}"#@;
    reveal_strlit(r#"{"message":{"content":[{"text":"#);
    reveal_strlit(r#","type":"text"}],"role":"user"},"type":"user"}"#);
    reveal_strlit("\n");
    json::law_quoted_is_one_line(turn);
    let t = turn_text(turn);
    assert(t.drop_last() =~= a + q + b);
    assert(!a.contains('\n'));
    assert(!b.contains('\n'));
    assert forall|i: int| 0 <= i < (a + q + b).len() implies (a + q + b)[i] != '\n' by {
        if i < a.len() {
            assert((a + q + b)[i] == a[i]);
        } else if i < a.len() + q.len() {
            assert((a + q + b)[i] == q[i - a.len()]);
            assert(q.contains(q[i - a.len()]));
        } else {
            assert((a + q + b)[i] == b[i - a.len() - q.len()]);
        }
    }
}

// ----- what a harness says -----

/// The text of a block, if it is a text block.
pub open spec fn block_text(block: JsonTree) -> Seq<char> {
    if json::opt_as_text(json::field(block, "type"@)) == Some("text"@) {
        match json::opt_as_text(json::field(block, "text"@)) {
            Some(t) => t,
            None => Seq::empty(),
        }
    } else {
        Seq::empty()
    }
}

/// The text blocks of a list, joined.
pub open spec fn blocks_text(blocks: Seq<JsonTree>) -> Seq<char>
    decreases blocks.len(),
{
    if blocks.len() == 0 {
        Seq::empty()
    } else {
        blocks_text(blocks.drop_last()) + block_text(blocks.last())
    }
}

/// The text of an assistant message; `None` where it has no list of blocks.
pub open spec fn assistant_text(t: JsonTree) -> Option<Seq<char>> {
    match json::field(t, "message"@) {
        Some(m) => match json::field(m, "content"@) {
            Some(JsonTree::List(blocks)) => Some(blocks_text(blocks)),
            _ => None,
        },
        None => None,
    }
}

/// What a document reports; `None` where it is of no interest.
pub open spec fn event_of(t: JsonTree) -> Option<HarnessV> {
    let kind = json::opt_as_text(json::field(t, "type"@));
    if kind == Some("assistant"@) {
        let said = match assistant_text(t) {
            Some(s) => s,
            None => Seq::empty(),
        };
        if said.len() == 0 {
            None
        } else {
            Some(HarnessV::AssistantText(said))
        }
    } else if kind == Some("result"@) {
        Some(
            HarnessV::TurnComplete {
                result: match json::opt_as_text(json::field(t, "result"@)) {
                    Some(s) => s,
                    None => Seq::empty(),
                },
                is_error: json::field(t, "is_error"@) == Some(JsonTree::Bool(true)),
            },
        )
    } else {
        None
    }
}

/// The text of a member of an object.
fn text_field<'a>(v: &'a Json, key: &str) -> (r: Option<&'a str>)
    ensures
        text::opt_str(r) == json::opt_as_text(json::field(v@, key@)),
{
    match v.get(key) {
        Some(j) => j.as_str(),
        None => None,
    }
}

fn is_text(s: Option<&str>, want: &str) -> (r: bool)
    ensures
        r == (text::opt_str(s) == Some(want@)),
{
    match s {
        Some(t) => text::str_eq(t, want),
        None => false,
    }
}

/// Joins the text blocks of an assistant message.
pub fn extract_assistant_text(v: &Json) -> (r: Option<String>)
    ensures
        text::opt_text(r) == assistant_text(v@),
{
    let message = match v.get("message") {
        Some(m) => m,
        None => return None,
    };
    match message.get("content") {
        Some(Json::List(blocks)) => {
            let ghost all = json::tree(Json::List(*blocks))->List_0;
            let mut s = String::new();
            let mut i: usize = 0;
            assert(all.take(0) =~= Seq::empty());
            while i < blocks.len()
                invariant
                    i <= blocks.len(),
                    all == json::tree(Json::List(*blocks))->List_0,
                    json::tree(Json::List(*blocks)) is List,
                    s@ == blocks_text(all.take(i as int)),
                decreases blocks.len() - i,
            {
                let block = &blocks[i];
                assert(all[i as int] == block@);
                assert(all.take(i + 1).drop_last() =~= all.take(i as int));
                let ghost before = s@;
                if is_text(text_field(block, "type"), "text") {
                    if let Some(t) = text_field(block, "text") {
                        s.append(t);
                    }
                }
                assert(s@ =~= before + block_text(block@));
                i = i + 1;
            }
            assert(all.take(i as int) =~= all);
            Some(s)
        },
        _ => None,
    }
}

/// What a document reports.
pub fn read_event(v: &Json) -> (r: Option<HarnessEvent>)
    ensures
        table::opt_row(r) == event_of(v@),
{
    let kind = text_field(v, "type");
    proof {
        reveal_strlit("assistant");
        reveal_strlit("result");
        assert("assistant"@.len() != "result"@.len());
    }
    if is_text(kind, "assistant") {
        let said = match extract_assistant_text(v) {
            Some(s) => s,
            None => String::new(),
        };
        if said.as_str().is_empty() {
            None
        } else {
            Some(HarnessEvent::AssistantText(said))
        }
    } else if is_text(kind, "result") {
        let result = match text_field(v, "result") {
            Some(s) => s.to_owned(),
            None => String::new(),
        };
        let is_error = match v.get("is_error") {
            Some(j) => match j.as_bool() {
                Some(b) => b,
                None => false,
            },
            None => false,
        };
        Some(HarnessEvent::TurnComplete { result, is_error })
    } else {
        None
    }
}

/// What a line reports; `None` where it is no JSON document or of no interest.
pub open spec fn line_event(line: Seq<char>) -> Option<HarnessV> {
    match json::json_parsed(line) {
        Some(t) => event_of(t),
        None => None,
    }
}

/// What a line reports.
pub fn parse_event(line: &str) -> (r: Option<HarnessEvent>)
    ensures
        table::opt_row(r) == line_event(line@),
{
    match json::parse(line) {
        Some(v) => read_event(&v),
        None => None,
    }
}

// ----- lines out of chunks -----

/// The text of bytes, where what is not UTF-8 is replaced.
pub uninterp spec fn lossy_text(b: Seq<u8>) -> Seq<char>;

/// `String::from_utf8_lossy` of std: a function of the bytes, which gives valid UTF-8 as it is.
#[verifier::external_body]
pub(crate) fn from_utf8_lossy(b: &[u8]) -> (r: String)
    ensures
        r@ == lossy_text(b@),
        vstd::utf8::valid_utf8(b@) ==> r@ == vstd::utf8::decode_utf8(b@),
{
    String::from_utf8_lossy(b).into_owned()
}

/// Where the first line end in `b` is; the length of `b` where there is none.
pub open spec fn line_end(b: Seq<u8>) -> nat
    decreases b.len(),
{
    if b.len() == 0 || b[0] == 10 {
        0
    } else {
        1 + line_end(b.skip(1))
    }
}

/// What one raw line reports. Blank lines report nothing.
pub open spec fn raw_line_event(raw: Seq<u8>) -> Option<HarnessV> {
    let line = text::trimmed(lossy_text(raw));
    if line.len() == 0 {
        None
    } else {
        line_event(line)
    }
}

/// The bytes behind the last line end.
pub open spec fn unfinished(b: Seq<u8>) -> Seq<u8>
    decreases b.len(),
{
    if line_end(b) < b.len() {
        unfinished(b.skip(line_end(b) as int + 1))
    } else {
        b
    }
}

/// Everything that the finished lines of `b` report, in order.
pub open spec fn reports(b: Seq<u8>) -> Seq<HarnessV>
    decreases b.len(),
{
    if line_end(b) < b.len() {
        let rest = reports(b.skip(line_end(b) as int + 1));
        match raw_line_event(b.take(line_end(b) as int + 1)) {
            Some(e) => seq![e] + rest,
            None => rest,
        }
    } else {
        Seq::empty()
    }
}

/// The first report in `b`, if there is one, and what stands behind it.
pub open spec fn first_report(b: Seq<u8>) -> (Option<HarnessV>, Seq<u8>)
    decreases b.len(),
{
    if line_end(b) < b.len() {
        let rest = b.skip(line_end(b) as int + 1);
        match raw_line_event(b.take(line_end(b) as int + 1)) {
            Some(e) => (Some(e), rest),
            None => first_report(rest),
        }
    } else {
        (None, b)
    }
}

/// What the output read so far amounts to.
pub enum Progress {
    /// The harness reports something.
    Event(HarnessEvent),
    /// More output has to be read.
    More,
    /// The line begun is too long.
    TooLong,
}

/// The output of a harness that has been read and not yet understood.
pub struct LineBuffer {
    buf: Vec<u8>,
}

impl View for LineBuffer {
    type V = Seq<u8>;

    closed spec fn view(&self) -> Seq<u8> {
        self.buf@
    }
}

impl LineBuffer {
    /// Nothing read yet.
    pub fn new() -> (r: Self)
        ensures
            r@ == Seq::<u8>::empty(),
    {
        LineBuffer { buf: Vec::new() }
    }

    /// Takes a chunk of output in.
    pub fn feed(&mut self, chunk: &[u8])
        ensures
            final(self)@ == old(self)@ + chunk@,
    {
        self.buf.extend_from_slice(chunk);
        assert(self.buf@ =~= old(self).buf@ + chunk@);
    }

    /// The next report, if the output read so far holds one. Lines that report nothing are dropped.
    pub fn next_event(&mut self) -> (r: Progress)
        ensures
            final(self)@ == first_report(old(self)@).1,
            match r {
                Progress::Event(e) => first_report(old(self)@).0 == Some(e@),
                Progress::More => first_report(old(self)@).0 is None && final(self)@.len()
                    <= MAX_LINE_BYTES,
                Progress::TooLong => first_report(old(self)@).0 is None && final(self)@.len()
                    > MAX_LINE_BYTES,
            },
    {
        let ghost whole = self.buf@;
        loop
            invariant
                first_report(self.buf@) == first_report(whole),
                whole == old(self)@,
            ensures
                line_end(self.buf@) == self.buf@.len(),
            decreases self.buf@.len(),
        {
            let end = find_line_end(self.buf.as_slice());
            if end == self.buf.len() {
                break;
            }
            let ghost now = self.buf@;
            let rest = self.buf.split_off(end + 1);
            let mut raw = rest;
            std::mem::swap(&mut raw, &mut self.buf);
            assert(raw@ =~= now.take(end + 1));
            assert(self.buf@ =~= now.skip(end + 1));
            let decoded = from_utf8_lossy(raw.as_slice());
            let line = text::trim(decoded.as_str());
            if !line.is_empty() {
                if let Some(e) = parse_event(line) {
                    return Progress::Event(e);
                }
            }
        }
        if self.buf.len() > MAX_LINE_BYTES {
            Progress::TooLong
        } else {
            Progress::More
        }
    }
}

/// Where the first line end is.
fn find_line_end(b: &[u8]) -> (r: usize)
    ensures
        r == line_end(b@),
        r <= b@.len(),
{
    let mut i: usize = 0;
    assert(b@.skip(0) =~= b@);
    while i < b.len() && b[i] != 10
        invariant
            i <= b.len(),
            line_end(b@) == i + line_end(b@.skip(i as int)),
        decreases b.len() - i,
    {
        assert(b@.skip(i as int).skip(1) =~= b@.skip(i + 1));
        i = i + 1;
    }
    i
}

proof fn lemma_line_end(b: Seq<u8>)
    ensures
        line_end(b) <= b.len(),
    decreases b.len(),
{
    if b.len() > 0 && b[0] != 10 {
        lemma_line_end(b.skip(1));
    }
}

proof fn lemma_line_end_concat(a: Seq<u8>, b: Seq<u8>)
    requires
        line_end(a) < a.len(),
    ensures
        line_end(a + b) == line_end(a),
    decreases a.len(),
{
    if a[0] != 10 {
        assert((a + b).skip(1) =~= a.skip(1) + b);
        lemma_line_end_concat(a.skip(1), b);
    }
}

/// How the output is cut into chunks does not matter: what is reported after one chunk and then
/// another is what the two in one chunk report, and the same bytes are left.
pub proof fn law_chunking_does_not_matter(a: Seq<u8>, b: Seq<u8>)
    ensures
        reports(a + b) == reports(a) + reports(unfinished(a) + b),
        unfinished(a + b) == unfinished(unfinished(a) + b),
    decreases a.len(),
{
    let n = line_end(a) as int;
    if n < a.len() {
        lemma_line_end_concat(a, b);
        assert((a + b).skip(n + 1) =~= a.skip(n + 1) + b);
        assert((a + b).take(n + 1) =~= a.take(n + 1));
        law_chunking_does_not_matter(a.skip(n + 1), b);
        let rest = reports(a.skip(n + 1));
        let more = reports(unfinished(a) + b);
        match raw_line_event(a.take(n + 1)) {
            Some(e) => {
                assert(seq![e] + (rest + more) =~= (seq![e] + rest) + more);
            },
            None => {},
        }
    } else {
        assert(reports(a) + reports(a + b) =~= reports(a + b));
    }
}

/// Asking for one report after another yields every report, in order, and leaves the unfinished
/// line.
pub proof fn law_reports_one_by_one(b: Seq<u8>)
    ensures
        match first_report(b).0 {
            Some(e) => reports(b) == seq![e] + reports(first_report(b).1) && unfinished(b)
                == unfinished(first_report(b).1),
            None => reports(b).len() == 0 && first_report(b).1 == unfinished(b),
        },
    decreases b.len(),
{
    let n = line_end(b) as int;
    if n < b.len() {
        law_reports_one_by_one(b.skip(n + 1));
    }
}

/// White space stands between words and is no part of them: it is passed over, and what stands before
/// it or before the end is a word as it is.
pub proof fn law_words_stand_between_white_space(c: char, word: Seq<char>, rest: Seq<char>)
    requires
        text::is_space(c),
        word.len() > 0,
        forall|i: int| 0 <= i < word.len() ==> !text::is_space(#[trigger] word[i]),
        rest.len() == 0 || text::is_space(rest[0]),
    ensures
        words(Seq::empty()).len() == 0,
        words(seq![c] + rest) == words(rest),
        words(seq![c] + word + rest) == words(word + rest),
        words(word + rest) == seq![word] + words(rest),
{
    assert((seq![c] + rest).skip(1) =~= rest);
    assert((seq![c] + word + rest).skip(1) =~= word + rest);
    lemma_word_len_before(word, rest);
    let s = word + rest;
    let n = word.len() as int;
    assert(s[0] == word[0]);
    assert(s.take(n) =~= word);
    assert(s.skip(n) =~= rest);
}

proof fn lemma_word_len_before(word: Seq<char>, rest: Seq<char>)
    requires
        forall|i: int| 0 <= i < word.len() ==> !text::is_space(#[trigger] word[i]),
        rest.len() == 0 || text::is_space(rest[0]),
    ensures
        word_len(word + rest) == word.len(),
    decreases word.len(),
{
    if word.len() == 0 {
        assert(word + rest =~= rest);
    } else {
        assert((word + rest).skip(1) =~= word.skip(1) + rest);
        assert((word + rest)[0] == word[0]);
        lemma_word_len_before(word.skip(1), rest);
    }
}

/// A command that is given stands in place of the built-in one, word by word. Where none is given, or a
/// blank one, the built-in program is run; it reads and writes JSON line by line, and has the permissions
/// that are asked for and no others.
pub proof fn law_command_line_is_as_asked(
    harness_cmd: Option<Seq<char>>,
    program: Seq<char>,
    mode: Seq<char>,
    permission_mode: Option<Seq<char>>,
    skip_permissions: bool,
)
    ensures
        harness_cmd is Some && words(harness_cmd->0).len() > 0 ==> argv_of(
            harness_cmd,
            program,
            permission_mode,
            skip_permissions,
        ) == words(harness_cmd->0),
        harness_cmd is None || words(harness_cmd->0).len() == 0 ==> {
            let plain = seq![
                program,
                "--print"@,
                "--input-format"@,
                "stream-json"@,
                "--output-format"@,
                "stream-json"@,
                "--verbose"@,
            ];
            &&& argv_of(harness_cmd, program, None, false) == plain
            &&& argv_of(harness_cmd, program, Some(mode), false) == plain + seq![
                "--permission-mode"@,
                mode,
            ]
            &&& argv_of(harness_cmd, program, None, true) == plain + seq![
                "--dangerously-skip-permissions"@,
            ]
            &&& argv_of(harness_cmd, program, Some(mode), true) == plain + seq![
                "--permission-mode"@,
                mode,
                "--dangerously-skip-permissions"@,
            ]
        },
{
    if harness_cmd is None || words(harness_cmd->0).len() == 0 {
        let plain = seq![
            program,
            "--print"@,
            "--input-format"@,
            "stream-json"@,
            "--output-format"@,
            "stream-json"@,
            "--verbose"@,
        ];
        assert(argv_of(harness_cmd, program, None, false) =~= plain);
        assert(argv_of(harness_cmd, program, Some(mode), false) =~= plain + seq![
            "--permission-mode"@,
            mode,
        ]);
        assert(argv_of(harness_cmd, program, None, true) =~= plain + seq![
            "--dangerously-skip-permissions"@,
        ]);
        assert(argv_of(harness_cmd, program, Some(mode), true) =~= plain + seq![
            "--permission-mode"@,
            mode,
            "--dangerously-skip-permissions"@,
        ]);
    }
}

/// A harness is launched as the program and the arguments of its command line, and is told its task
/// first where it has one; without a program it is not launched.
pub proof fn law_harness_is_launched_as_given(spec: SpecV, r: Result<Launch, String>)
    requires
        launched_as(spec, r),
    ensures
        r is Ok <==> spec.argv.len() > 0,
        r matches Ok(l) ==> {
            &&& spec.argv == seq![l.program@] + text::texts(l.args@)
            &&& l.first_line is Some <==> spec.initial_prompt.len() > 0
            &&& l.first_line is Some ==> l.first_line->0@ == turn_text(spec.initial_prompt)
        },
{
    if let Ok(l) = r {
        assert(spec.argv =~= seq![l.program@] + text::texts(l.args@));
    }
}

/// A turn is told as a message of the user whose one block is the text of the turn.
pub proof fn law_turn_is_told_whole(turn: Seq<char>)
    ensures
        turn_text(turn) == r#"{"message":{"content":[{"text":"#@ + json::quoted(turn)
            + r#","type":"text"}],"role":"user"},"type":"user"}"#@ + "\n"@,
{
}

/// What a message says is the text of its text blocks, one behind another.
pub proof fn law_message_says_its_text_blocks(blocks: Seq<JsonTree>, b: JsonTree, said: Seq<char>)
    ensures
        blocks_text(Seq::empty()).len() == 0,
        json::field(b, "type"@) == Some(JsonTree::Text("text"@)) && json::field(b, "text"@) == Some(
            JsonTree::Text(said),
        ) ==> blocks_text(blocks.push(b)) == blocks_text(blocks) + said,
        json::field(b, "type"@) != Some(JsonTree::Text("text"@)) ==> blocks_text(blocks.push(b))
            == blocks_text(blocks),
        json::field(b, "text"@) is None ==> blocks_text(blocks.push(b)) == blocks_text(blocks),
{
    assert(blocks.push(b).drop_last() =~= blocks);
    assert(blocks_text(blocks) + Seq::<char>::empty() =~= blocks_text(blocks));
}

/// An assistant's message reports what it says, where it says something. A result ends the turn with its
/// text, as an error only where it says so. Nothing else is reported.
pub proof fn law_reports_are_read(t: JsonTree, message: JsonTree, blocks: Seq<JsonTree>)
    ensures
        ({
            let kind = json::field(t, "type"@);
            let said = json::field(t, "message"@) == Some(message) && json::field(
                message,
                "content"@,
            ) == Some(JsonTree::List(blocks));
            let result = json::field(t, "result"@);
            &&& kind == Some(JsonTree::Text("assistant"@)) && said && blocks_text(blocks).len() > 0
                ==> event_of(t) == Some(HarnessV::AssistantText(blocks_text(blocks)))
            &&& kind == Some(JsonTree::Text("assistant"@)) && said && blocks_text(blocks).len() == 0
                ==> event_of(t) is None
            &&& kind == Some(JsonTree::Text("assistant"@)) && json::field(t, "message"@) is None
                ==> event_of(t) is None
            &&& kind == Some(JsonTree::Text("result"@)) ==> {
                &&& event_of(t) is Some && event_of(t)->0 is TurnComplete
                &&& result matches Some(JsonTree::Text(s)) ==> event_of(t)->0->result == s
                &&& !(result matches Some(JsonTree::Text(_))) ==> event_of(t)->0->result.len() == 0
                &&& event_of(t)->0->is_error == (json::field(t, "is_error"@) == Some(
                    JsonTree::Bool(true),
                ))
            }
            &&& kind != Some(JsonTree::Text("assistant"@)) && kind != Some(
                JsonTree::Text("result"@),
            ) ==> event_of(t) is None
        }),
{
    reveal_strlit("assistant");
    reveal_strlit("result");
    assert("assistant"@.len() != "result"@.len());
}

/// Each line of the output reports what its document does, in the order of the lines; a line that is
/// blank or no document reports nothing.
pub proof fn law_lines_report_their_documents(line: Seq<u8>, rest: Seq<u8>)
    requires
        !line.contains(10),
    ensures
        ({
            let document = text::trimmed(lossy_text(line.push(10)));
            let parsed = json::json_parsed(document);
            let own = if document.len() > 0 && parsed is Some && event_of(parsed->0) is Some {
                seq![event_of(parsed->0)->0]
            } else {
                Seq::empty()
            };
            reports(line.push(10) + rest) == own + reports(rest)
        }),
        reports(line).len() == 0,
        unfinished(line) == line,
{
    let b = line.push(10) + rest;
    let n = line.len() as int;
    lemma_line_end_of(line, seq![10u8] + rest);
    assert(b =~= line + (seq![10u8] + rest));
    assert(b.skip(n + 1) =~= rest);
    assert(b.take(n + 1) =~= line.push(10));
    assert(Seq::<HarnessV>::empty() + reports(rest) =~= reports(rest));
    lemma_line_end_of(line, Seq::empty());
    assert(line + Seq::<u8>::empty() =~= line);
}

proof fn lemma_line_end_of(line: Seq<u8>, rest: Seq<u8>)
    requires
        !line.contains(10),
        rest.len() == 0 || rest[0] == 10,
    ensures
        line_end(line + rest) == line.len(),
    decreases line.len(),
{
    if line.len() == 0 {
        assert(line + rest =~= rest);
    } else {
        assert(line.contains(line[0]));
        assert((line + rest)[0] == line[0]);
        assert((line + rest).skip(1) =~= line.skip(1) + rest);
        assert forall|i: int| 0 <= i < line.skip(1).len() implies line.skip(1)[i] != 10 by {
            assert(line.contains(line[i + 1]));
        }
        lemma_line_end_of(line.skip(1), rest);
    }
}

} // verus!
