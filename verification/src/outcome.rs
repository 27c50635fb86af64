//! What a benchmark run gives back: its result values, the score read from
//! them, and the errors that stop a run.
use crate::cli::Runtime;
use vstd::prelude::*;

verus! {

/// A Wasm value as a runtime hands it back. Floating-point values are held
/// by their IEEE 754 bit patterns.
#[derive(Clone, Copy, Debug, PartialEq, Eq, Structural)]
pub enum ScalarValue {
    I32(i32),
    I64(i64),
    F32(u32),
    F64(u64),
    /// A vector or a reference: nothing the benchmark reads.
    Other,
}

/// The type of a Wasm number.
#[derive(Clone, Copy, Debug, PartialEq, Eq, Structural)]
pub enum ValueKind {
    I32,
    I64,
    F32,
    F64,
    /// A vector or a reference type.
    Other,
}

/// The step of a run at which it failed.
#[derive(Clone, Copy, Debug, PartialEq, Eq, Structural)]
pub enum Stage {
    SetTarget,
    CreateEngine,
    CreateEnvironment,
    CreateRuntime,
    CreateImportObject,
    CreateStore,
    DefineHostFunction,
    ParseModule,
    Compile,
    Instantiate,
    AllocateState,
    InitializeModule,
    FindExport,
    InvalidFuncRef,
    ExportNotFunction,
    Invoke,
    Execute,
    UnexpectedResult,
}

/// Why a run on `runtime` stopped: the failed step and the runtime's own account.
#[derive(Debug)]
pub struct CoremarkError {
    pub runtime: Runtime,
    pub stage: Stage,
    /// The runtime's account of the failure, as one text.
    pub detail: String,
    /// The runtime's account as a chain of causes, outermost first: what the
    /// reports of the Wasmtime back ends list, each cause on its own line.
    pub causes: Vec<String>,
}

/// The kind of the Wasm value `v`.
pub open spec fn scalar_kind(v: ScalarValue) -> ValueKind {
    match v {
        ScalarValue::I32(_) => ValueKind::I32,
        ScalarValue::I64(_) => ValueKind::I64,
        ScalarValue::F32(_) => ValueKind::F32,
        ScalarValue::F64(_) => ValueKind::F64,
        ScalarValue::Other => ValueKind::Other,
    }
}

/// The kinds of the values `vs`, in order.
pub open spec fn scalar_kinds(vs: Seq<ScalarValue>) -> Seq<ValueKind> {
    vs.map_values(|v: ScalarValue| scalar_kind(v))
}

/// Values whose kinds are those of a score signature's results make a score.
pub proof fn lemma_score_kinds(vs: Seq<ScalarValue>)
    requires
        scalar_kinds(vs) == score_signature_spec().1,
    ensures
        score_spec(vs) is Ok,
{
    assert(scalar_kinds(vs).len() == 1);
    assert(scalar_kind(vs[0]) == scalar_kinds(vs)[0]);
}

/// The score of a run that gave back `results`: the bits of its one `f32`
/// result, or an error when it gave back anything else.
pub open spec fn score_spec(results: Seq<ScalarValue>) -> Result<u32, Stage> {
    if results.len() == 1 && results[0] is F32 {
        Ok(results[0]->F32_0)
    } else {
        Err(Stage::UnexpectedResult)
    }
}

/// The score in `results`: the bits of the one `f32` value, when `results`
/// holds exactly one value and it is an `f32`.
pub fn score_from_results(results: &Vec<ScalarValue>) -> (r: Result<u32, Stage>)
    ensures
        r == score_spec(results@),
{
    if results.len() == 1 {
        match results[0] {
            ScalarValue::F32(bits) => Ok(bits),
            _ => Err(Stage::UnexpectedResult),
        }
    } else {
        Err(Stage::UnexpectedResult)
    }
}

/// What a run on `runtime` reports once its `run` function was called, with
/// `called` holding the values the call gave back, or the runtime's account
/// of why it failed: a failed call is a failure at the execute step, and
/// the values of a finished call are read for the score.
pub fn finish_call(runtime: Runtime, called: Result<Vec<ScalarValue>, String>) -> (r: Result<
    u32,
    CoremarkError,
>)
    ensures
        r matches Err(e) ==> e.runtime == runtime,
        called matches Err(d) ==> r is Err && r->Err_0.stage == Stage::Execute && r->Err_0.detail
            == d,
        called matches Ok(v) ==> match score_spec(v@) {
            Ok(bits) => r == Ok::<u32, CoremarkError>(bits),
            Err(s) => r is Err && r->Err_0.stage == s && r->Err_0.detail@.len() == 0,
        },
{
    match called {
        Err(detail) => Err(fail_at(runtime, Stage::Execute, detail)),
        Ok(values) => match score_from_results(&values) {
            Ok(bits) => Ok(bits),
            Err(stage) => Err(fail_at(runtime, stage, String::new())),
        },
    }
}

/// The signature of a function that can be called for a score: no
/// parameters and one `f32` result.
pub open spec fn score_signature_spec() -> (Seq<ValueKind>, Seq<ValueKind>) {
    (Seq::empty(), seq![ValueKind::F32])
}

/// Whether a function with parameters `params` and results `results` can
/// be called for a score: it takes nothing and gives back one `f32`.
pub fn is_score_signature(params: &Vec<ValueKind>, results: &Vec<ValueKind>) -> (b: bool)
    ensures
        b == (params@.len() == 0 && results@ == seq![ValueKind::F32]),
        b == ((params@, results@) == score_signature_spec()),
{
    let b = params.len() == 0 && results.len() == 1 && results[0] == ValueKind::F32;
    proof {
        if b {
            assert(results@ =~= seq![ValueKind::F32]);
            assert(params@ =~= Seq::<ValueKind>::empty());
        }
    }
    b
}

/// The prefix under which errors of `r` are reported.
pub open spec fn error_label_spec(r: Runtime) -> Seq<char> {
    match r {
        Runtime::Wasmtime => "Wasmtime"@,
        Runtime::Winch => "Winch"@,
        Runtime::Pulley => "Pulley"@,
        Runtime::Wasmi => "Wasmi"@,
        Runtime::WasmiV1 => "Wasmi"@,
        Runtime::Stitch => "Stitch"@,
        Runtime::Wasm3 => "Wasm3"@,
        Runtime::Tinywasm => "Tinywasm"@,
        Runtime::Wamr => "WAMR"@,
        Runtime::WasmEdge => "WasmEdge"@,
        Runtime::SpaceWasm => "SpaceWasm"@,
    }
}

/// What a failure at `s` is reported as, where a runtime has no wording of its own.
pub open spec fn stage_text_spec(s: Stage) -> Seq<char> {
    match s {
        Stage::SetTarget => "failed to set target to `pulley64`"@,
        Stage::CreateEngine => "failed to create engine"@,
        Stage::CreateEnvironment => "failed to create execution environment"@,
        Stage::CreateRuntime => "failed to create runtime"@,
        Stage::CreateImportObject => "failed to create import object"@,
        Stage::CreateStore => "failed to create store"@,
        Stage::DefineHostFunction => "failed to define `clock_ms` host function"@,
        Stage::ParseModule => "failed to parse Wasm module"@,
        Stage::Compile => "failed to compile and validate coremark Wasm binary"@,
        Stage::Instantiate => "failed to instantiate coremark Wasm module"@,
        Stage::AllocateState => "failed to allocate interpreter state"@,
        Stage::InitializeModule => "module initialization failed"@,
        Stage::FindExport => "could not find \"run\" function export"@,
        Stage::InvalidFuncRef => "invalid function ref"@,
        Stage::ExportNotFunction => "\"run\" export is not a function"@,
        Stage::Invoke => "failed to invoke \"run\""@,
        Stage::Execute => "failed to execute \"run\" function"@,
        Stage::UnexpectedResult => "expected a single f32 result, got"@,
    }
}

/// What a failure of a run on `r` at `s` is reported as, in that runtime's
/// own wording.
pub open spec fn failure_text_spec(r: Runtime, s: Stage) -> Seq<char> {
    match (r, s) {
        (Runtime::Wasmi, Stage::Instantiate) => "failed to start Wasm module instance"@,
        (Runtime::WasmiV1, Stage::Instantiate) => "failed to start Wasm module instance"@,
        (Runtime::Stitch, Stage::Instantiate) => "failed to start Wasm module instance"@,
        (Runtime::Tinywasm, Stage::Instantiate) => "failed to instantiate Wasm module"@,
        (Runtime::Wamr, Stage::Instantiate) => "failed to instantiate Wasm module"@,
        (Runtime::WasmEdge, Stage::Instantiate) => "failed to instantiate Wasm module"@,
        (Runtime::Wamr, Stage::DefineHostFunction) => "failed to register `env::clock_ms` host function"@,
        (Runtime::Wasm3, Stage::DefineHostFunction) => "failed to link \"clock_ms\" function"@,
        (Runtime::Wasm3, Stage::Compile) => "failed to parse coremark Wasm module"@,
        (Runtime::Wasm3, Stage::FindExport) => "failed to find exported \"run\" function in Wasm module instance"@,
        (Runtime::Wasm3, Stage::Execute) => "failed to call \"run\" function"@,
        (Runtime::SpaceWasm, Stage::Execute) => "failed to execute \"run\""@,
        _ => stage_text_spec(s),
    }
}

/// The prefix of the report of a failure of a run on `r` at `s`: the
/// runtime's label, except for Wasm3's load step, whose report is prefixed
/// "Wasm".
pub open spec fn failure_label_spec(r: Runtime, s: Stage) -> Seq<char> {
    if r == Runtime::Wasm3 && s == Stage::Compile {
        "Wasm"@
    } else {
        error_label_spec(r)
    }
}

/// The prefix under which errors of `r` are reported.
pub fn error_label(r: Runtime) -> (s: &'static str)
    ensures
        s@ == error_label_spec(r),
{
    match r {
        Runtime::Wasmtime => "Wasmtime",
        Runtime::Winch => "Winch",
        Runtime::Pulley => "Pulley",
        Runtime::Wasmi => "Wasmi",
        Runtime::WasmiV1 => "Wasmi",
        Runtime::Stitch => "Stitch",
        Runtime::Wasm3 => "Wasm3",
        Runtime::Tinywasm => "Tinywasm",
        Runtime::Wamr => "WAMR",
        Runtime::WasmEdge => "WasmEdge",
        Runtime::SpaceWasm => "SpaceWasm",
    }
}

/// What a failure at `s` is reported as, where a runtime has no wording of its own.
pub fn stage_text(s: Stage) -> (t: &'static str)
    ensures
        t@ == stage_text_spec(s),
{
    match s {
        Stage::SetTarget => "failed to set target to `pulley64`",
        Stage::CreateEngine => "failed to create engine",
        Stage::CreateEnvironment => "failed to create execution environment",
        Stage::CreateRuntime => "failed to create runtime",
        Stage::CreateImportObject => "failed to create import object",
        Stage::CreateStore => "failed to create store",
        Stage::DefineHostFunction => "failed to define `clock_ms` host function",
        Stage::ParseModule => "failed to parse Wasm module",
        Stage::Compile => "failed to compile and validate coremark Wasm binary",
        Stage::Instantiate => "failed to instantiate coremark Wasm module",
        Stage::AllocateState => "failed to allocate interpreter state",
        Stage::InitializeModule => "module initialization failed",
        Stage::FindExport => "could not find \"run\" function export",
        Stage::InvalidFuncRef => "invalid function ref",
        Stage::ExportNotFunction => "\"run\" export is not a function",
        Stage::Invoke => "failed to invoke \"run\"",
        Stage::Execute => "failed to execute \"run\" function",
        Stage::UnexpectedResult => "expected a single f32 result, got",
    }
}

/// What a failure of a run on `r` at `s` is reported as, in that runtime's
/// own wording.
pub fn failure_text(r: Runtime, s: Stage) -> (t: &'static str)
    ensures
        t@ == failure_text_spec(r, s),
{
    match (r, s) {
        (Runtime::Wasmi, Stage::Instantiate) => "failed to start Wasm module instance",
        (Runtime::WasmiV1, Stage::Instantiate) => "failed to start Wasm module instance",
        (Runtime::Stitch, Stage::Instantiate) => "failed to start Wasm module instance",
        (Runtime::Tinywasm, Stage::Instantiate) => "failed to instantiate Wasm module",
        (Runtime::Wamr, Stage::Instantiate) => "failed to instantiate Wasm module",
        (Runtime::WasmEdge, Stage::Instantiate) => "failed to instantiate Wasm module",
        (Runtime::Wamr, Stage::DefineHostFunction) => "failed to register `env::clock_ms` host function",
        (Runtime::Wasm3, Stage::DefineHostFunction) => "failed to link \"clock_ms\" function",
        (Runtime::Wasm3, Stage::Compile) => "failed to parse coremark Wasm module",
        (Runtime::Wasm3, Stage::FindExport) => "failed to find exported \"run\" function in Wasm module instance",
        (Runtime::Wasm3, Stage::Execute) => "failed to call \"run\" function",
        (Runtime::SpaceWasm, Stage::Execute) => "failed to execute \"run\"",
        _ => stage_text(s),
    }
}

/// The prefix of the report of a failure of a run on `r` at `s`.
pub fn failure_label(r: Runtime, s: Stage) -> (t: &'static str)
    ensures
        t@ == failure_label_spec(r, s),
{
    if r == Runtime::Wasm3 && s == Stage::Compile {
        "Wasm"
    } else {
        error_label(r)
    }
}

/// The texts of the causes `c`.
pub open spec fn causes_view(c: Seq<String>) -> Seq<Seq<char>> {
    c.map_values(|t: String| t@)
}

/// The decimal digit `d`.
pub open spec fn digit_text(d: int) -> Seq<char> {
    if d == 0 {
        "0"@
    } else if d == 1 {
        "1"@
    } else if d == 2 {
        "2"@
    } else if d == 3 {
        "3"@
    } else if d == 4 {
        "4"@
    } else if d == 5 {
        "5"@
    } else if d == 6 {
        "6"@
    } else if d == 7 {
        "7"@
    } else if d == 8 {
        "8"@
    } else {
        "9"@
    }
}

/// `n` written in decimal, without leading zeros.
pub open spec fn decimal(n: nat) -> Seq<char>
    decreases n,
{
    if n < 10 {
        digit_text(n as int)
    } else {
        decimal(n / 10) + digit_text((n % 10) as int)
    }
}

/// `k` spaces; none when `k` is not positive.
pub open spec fn spaces(k: int) -> Seq<char>
    decreases k,
{
    if k <= 0 {
        Seq::empty()
    } else {
        spaces(k - 1) + " "@
    }
}

/// The number in front of cause `n` of a chain: `n` right-aligned in five
/// columns, then a colon and a space.
pub open spec fn cause_number(n: nat) -> Seq<char> {
    spaces(5 - decimal(n).len()) + decimal(n) + ": "@
}

/// `s` with `ind` put after each line break, so that every line after the
/// first is indented by `ind`.
pub open spec fn indent_lines(s: Seq<char>, ind: Seq<char>) -> Seq<char>
    decreases s.len(),
{
    if s.len() == 0 {
        Seq::empty()
    } else {
        indent_lines(s.drop_last(), ind) + if s.last() == '\n' {
            "\n"@ + ind
        } else {
            seq![s.last()]
        }
    }
}

/// Cause `n` of a chain, `c`, as its own line of a report: numbered when the
/// chain holds more than one cause, else indented by four spaces; its own
/// further lines are indented to match.
pub open spec fn cause_line(n: nat, c: Seq<char>, numbered: bool) -> Seq<char> {
    if numbered {
        cause_number(n) + indent_lines(c, "       "@)
    } else {
        "    "@ + indent_lines(c, "    "@)
    }
}

/// The causes `causes`, each on a line of its own after a line break.
pub open spec fn cause_lines(causes: Seq<Seq<char>>, numbered: bool) -> Seq<char>
    decreases causes.len(),
{
    if causes.len() == 0 {
        Seq::empty()
    } else {
        cause_lines(causes.drop_last(), numbered) + "\n"@ + cause_line(
            (causes.len() - 1) as nat,
            causes.last(),
            numbered,
        )
    }
}

/// The decimal digit `d`.
fn digit_str(d: usize) -> (t: &'static str)
    requires
        d < 10,
    ensures
        t@ == digit_text(d as int),
{
    match d {
        0 => "0",
        1 => "1",
        2 => "2",
        3 => "3",
        4 => "4",
        5 => "5",
        6 => "6",
        7 => "7",
        8 => "8",
        _ => "9",
    }
}

/// Appends `n` in decimal to `s`.
fn push_decimal(s: &mut String, n: usize)
    ensures
        final(s)@ == old(s)@ + decimal(n as nat),
    decreases n,
{
    if n >= 10 {
        push_decimal(s, n / 10);
    }
    s.append(digit_str(n % 10));
    proof {
        if n >= 10 {
            assert(final(s)@ =~= old(s)@ + decimal(n as nat));
        }
    }
}

/// Appends the number in front of cause `n` to `s`.
fn push_cause_number(s: &mut String, n: usize)
    ensures
        final(s)@ == old(s)@ + cause_number(n as nat),
{
    let mut digits = String::new();
    push_decimal(&mut digits, n);
    assert(digits@ =~= decimal(n as nat));
    let len = digits.as_str().unicode_len();
    let ghost start = s@;
    let mut k: usize = len;
    if k < 5 {
        while k < 5
            invariant
                len <= k <= 5,
                s@ == start + spaces(k - len),
            decreases 5 - k,
        {
            s.append(" ");
            k = k + 1;
        }
        assert(spaces(k - len) == spaces(5 - decimal(n as nat).len()));
    } else {
        assert(spaces(5 - decimal(n as nat).len()) =~= Seq::<char>::empty());
        assert(s@ =~= start + spaces(5 - decimal(n as nat).len()));
    }
    s.append(digits.as_str());
    s.append(": ");
    assert(s@ =~= start + cause_number(n as nat));
}

/// Appends `c` to `s`, with `ind` after each of its line breaks.
fn push_indented(s: &mut String, c: &str, ind: &str)
    ensures
        final(s)@ == old(s)@ + indent_lines(c@, ind@),
{
    let ghost start = s@;
    let n = c.unicode_len();
    let mut i: usize = 0;
    assert(c@.take(0) =~= Seq::<char>::empty());
    while i < n
        invariant
            i <= n,
            n == c@.len(),
            s@ == start + indent_lines(c@.take(i as int), ind@),
        decreases n - i,
    {
        let ch = c.get_char(i);
        let ghost before = s@;
        if ch == '\n' {
            s.append("\n");
            s.append(ind);
        } else {
            let one = c.substring_char(i, i + 1);
            assert(one@ =~= seq![ch]);
            s.append(one);
        }
        assert(c@.take(i as int + 1).drop_last() =~= c@.take(i as int));
        assert(c@.take(i as int + 1).last() == ch);
        assert(s@ =~= start + indent_lines(c@.take(i as int + 1), ind@));
        i = i + 1;
    }
    assert(c@.take(n as int) =~= c@);
}

/// Appends cause `n` of a chain, `c`, as its own line.
fn push_cause_line(s: &mut String, n: usize, c: &str, numbered: bool)
    ensures
        final(s)@ == old(s)@ + cause_line(n as nat, c@, numbered),
{
    let ghost start = s@;
    if numbered {
        push_cause_number(s, n);
        push_indented(s, c, "       ");
    } else {
        s.append("    ");
        push_indented(s, c, "    ");
    }
    assert(s@ =~= start + cause_line(n as nat, c@, numbered));
}

impl CoremarkError {
    /// Whether errors of the runtime are reported as a chain of contexts:
    /// the Wasmtime back ends name themselves on top, above the failed step
    /// and then the runtime's own account.
    pub open spec fn chained_spec(&self) -> bool {
        self.runtime == Runtime::Wasmtime || self.runtime == Runtime::Winch || self.runtime
            == Runtime::Pulley
    }

    /// What stands between the failed step and the runtime's account: a
    /// space after an unexpected result's "got", else a colon and a space.
    pub open spec fn detail_separator_spec(&self) -> Seq<char> {
        if self.stage == Stage::UnexpectedResult {
            " "@
        } else {
            ": "@
        }
    }

    /// The chain under "Caused by:" in the report of a Wasmtime back end:
    /// the failed step, then the runtime's causes.
    pub open spec fn chain_spec(&self) -> Seq<Seq<char>> {
        seq![failure_text_spec(self.runtime, self.stage)] + causes_view(self.causes@)
    }

    /// The report of this error. For a Wasmtime back end it is the back
    /// end's label, then under "Caused by:" the failed step and the
    /// runtime's causes, each on its own line, numbered when there is more
    /// than one. For the other runtimes it is the label, a colon, the failed
    /// step, and the runtime's account after a separator.
    pub open spec fn message_spec(&self) -> Seq<char> {
        let label = failure_label_spec(self.runtime, self.stage);
        let text = failure_text_spec(self.runtime, self.stage);
        if self.chained_spec() {
            label + "\n\nCaused by:"@ + cause_lines(self.chain_spec(), self.chain_spec().len() > 1)
        } else {
            let head = label + ": "@ + text;
            if self.detail@.len() == 0 {
                head
            } else {
                head + self.detail_separator_spec() + self.detail@
            }
        }
    }

    /// The report of this error, as the panic of a failed run shows it.
    pub fn message(&self) -> (s: String)
        ensures
            s@ == self.message_spec(),
    {
        let chained = self.runtime == Runtime::Wasmtime || self.runtime == Runtime::Winch
            || self.runtime == Runtime::Pulley;
        let mut s = String::from_str(failure_label(self.runtime, self.stage));
        if chained {
            let ghost label = s@;
            let ghost chain = self.chain_spec();
            let numbered = self.causes.len() > 0;
            s.append("\n\nCaused by:");
            s.append("\n");
            push_cause_line(&mut s, 0, failure_text(self.runtime, self.stage), numbered);
            assert(chain.take(1).drop_last() =~= Seq::<Seq<char>>::empty());
            assert(chain.take(1).last() == failure_text_spec(self.runtime, self.stage));
            assert(cause_lines(chain.take(1), numbered) == cause_lines(Seq::<Seq<char>>::empty(), numbered)
                + "\n"@ + cause_line(0, failure_text_spec(self.runtime, self.stage), numbered));
            assert(s@ =~= label + "\n\nCaused by:"@ + cause_lines(chain.take(1), numbered));
            let mut i: usize = 0;
            while i < self.causes.len()
                invariant
                    i <= self.causes@.len(),
                    chain == self.chain_spec(),
                    chain.len() == self.causes@.len() + 1,
                    numbered == (chain.len() > 1),
                    s@ == label + "\n\nCaused by:"@ + cause_lines(chain.take(i + 1), numbered),
                decreases self.causes.len() - i,
            {
                s.append("\n");
                push_cause_line(&mut s, i + 1, self.causes[i].as_str(), numbered);
                assert(chain.take(i + 2).drop_last() =~= chain.take(i + 1));
                assert(chain.take(i + 2).last() == self.causes@[i as int]@);
                assert(s@ =~= label + "\n\nCaused by:"@ + cause_lines(chain.take(i + 2), numbered));
                i = i + 1;
            }
            assert(chain.take(i + 1) =~= chain);
        } else {
            let has_detail = self.detail.as_str().unicode_len() > 0;
            s.append(": ");
            s.append(failure_text(self.runtime, self.stage));
            if has_detail {
                if self.stage == Stage::UnexpectedResult {
                    s.append(" ");
                } else {
                    s.append(": ");
                }
                s.append(self.detail.as_str());
            }
        }
        s
    }
}

/// Formats `e` with its `Debug` impl, the account a runtime gives of an
/// error. What the text holds is up to that impl, so nothing is stated of it.
#[verifier::external_body]
pub(crate) fn describe<E: core::fmt::Debug>(e: &E) -> (s: String) {
    format!("{:?}", e)
}

/// Tags a failure of a run on `runtime` at `stage` with the runtime's account
/// `detail`, which is also the one cause in the chain, when there is one.
pub fn fail_at(runtime: Runtime, stage: Stage, detail: String) -> (e: CoremarkError)
    ensures
        e.runtime == runtime,
        e.stage == stage,
        e.detail == detail,
        causes_view(e.causes@) == if detail@.len() == 0 {
            Seq::<Seq<char>>::empty()
        } else {
            seq![detail@]
        },
{
    let mut causes: Vec<String> = Vec::new();
    if detail.as_str().unicode_len() > 0 {
        causes.push(detail.clone());
    }
    proof {
        if detail@.len() == 0 {
            assert(causes_view(causes@) =~= Seq::<Seq<char>>::empty());
        } else {
            assert(causes_view(causes@) =~= seq![detail@]);
        }
    }
    CoremarkError { runtime, stage, detail, causes }
}

/// Tags a failure of a run on `runtime` at `stage` with the runtime's account
/// as the chain of causes `causes`; the one-text account stays empty.
pub fn fail_with_causes(runtime: Runtime, stage: Stage, causes: Vec<String>) -> (e: CoremarkError)
    ensures
        e.runtime == runtime,
        e.stage == stage,
        e.detail@.len() == 0,
        e.causes == causes,
{
    CoremarkError { runtime, stage, detail: String::new(), causes }
}

/// The position of the first of `names` that equals `target`.
pub fn find_export(names: &Vec<String>, target: &str) -> (r: Option<usize>)
    ensures
        match r {
            Some(i) => i < names@.len() && names@[i as int]@ == target@ && forall|j: int|
                0 <= j < i ==> names@[j]@ != target@,
            None => forall|j: int| 0 <= j < names@.len() ==> names@[j]@ != target@,
        },
{
    let wanted: String = target.to_owned();
    let mut i: usize = 0;
    while i < names.len()
        invariant
            i <= names@.len(),
            wanted@ == target@,
            forall|j: int| 0 <= j < i ==> names@[j]@ != target@,
        decreases names.len() - i,
    {
        if names[i] == wanted {
            return Some(i);
        }
        i = i + 1;
    }
    None
}

/// How one slice of interpretation ended.
#[derive(Clone, Copy, Debug, PartialEq, Eq, Structural)]
pub enum SliceOutcome {
    Finished,
    OutOfFuel,
    Failed,
}

/// What comes after a slice of interpretation.
#[derive(Clone, Copy, Debug, PartialEq, Eq, Structural)]
pub enum NextStep {
    /// Give the interpreter more fuel and run again.
    RunAgain,
    /// The call has finished; read its result.
    ReadResult,
    /// The call failed.
    Fail,
}

/// After a slice that ended with `o`: run again while fuel ran out, read the
/// result once the call finished, and fail otherwise.
pub fn after_slice(o: SliceOutcome) -> (n: NextStep)
    ensures
        o == SliceOutcome::OutOfFuel <==> n == NextStep::RunAgain,
        o == SliceOutcome::Finished <==> n == NextStep::ReadResult,
        o == SliceOutcome::Failed <==> n == NextStep::Fail,
{
    match o {
        SliceOutcome::Finished => NextStep::ReadResult,
        SliceOutcome::OutOfFuel => NextStep::RunAgain,
        SliceOutcome::Failed => NextStep::Fail,
    }
}

} // verus!
