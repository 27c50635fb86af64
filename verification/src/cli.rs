//! The runtimes the benchmark knows, their names, and what a command line asks for.
use vstd::prelude::*;

verus! {

/// A WebAssembly runtime on which the benchmark can run.
#[derive(Clone, Copy, Debug, PartialEq, Eq, Structural)]
pub enum Runtime {
    Wasmtime,
    Winch,
    Pulley,
    Wasmi,
    WasmiV1,
    Stitch,
    Wasm3,
    Tinywasm,
    Wamr,
    WasmEdge,
    SpaceWasm,
}

/// Every runtime, in the order in which a full run visits them.
pub open spec fn all_runtimes_spec() -> Seq<Runtime> {
    seq![
        Runtime::Wasmtime,
        Runtime::Winch,
        Runtime::Pulley,
        Runtime::Wasmi,
        Runtime::WasmiV1,
        Runtime::Stitch,
        Runtime::Wasm3,
        Runtime::Tinywasm,
        Runtime::Wamr,
        Runtime::WasmEdge,
        Runtime::SpaceWasm,
    ]
}

/// The name by which the command line selects a runtime.
pub open spec fn cli_name_spec(r: Runtime) -> Seq<char> {
    match r {
        Runtime::Wasmtime => "wasmtime"@,
        Runtime::Winch => "winch"@,
        Runtime::Pulley => "pulley"@,
        Runtime::Wasmi => "wasmi"@,
        Runtime::WasmiV1 => "wasmi-v1"@,
        Runtime::Stitch => "stitch"@,
        Runtime::Wasm3 => "wasm3"@,
        Runtime::Tinywasm => "tinywasm"@,
        Runtime::Wamr => "wamr"@,
        Runtime::WasmEdge => "wasmedge"@,
        Runtime::SpaceWasm => "spacewasm"@,
    }
}

/// The name under which reports show a runtime.
pub open spec fn display_name_spec(r: Runtime) -> Seq<char> {
    match r {
        Runtime::Wasmtime => "Wasmtime v46"@,
        Runtime::Winch => "Winch v46"@,
        Runtime::Pulley => "Pulley v46"@,
        Runtime::Wasmi => "Wasmi v2"@,
        Runtime::WasmiV1 => "Wasmi v1"@,
        Runtime::Stitch => "Stitch"@,
        Runtime::Wasm3 => "Wasm3"@,
        Runtime::Tinywasm => "Tinywasm"@,
        Runtime::Wamr => "WAMR (fast interpreter)"@,
        Runtime::WasmEdge => "WasmEdge"@,
        Runtime::SpaceWasm => "SpaceWasm"@,
    }
}

/// Every runtime, in the order in which a full run visits them.
pub fn all_runtimes() -> (v: Vec<Runtime>)
    ensures
        v@ == all_runtimes_spec(),
{
    let v = vec![
        Runtime::Wasmtime,
        Runtime::Winch,
        Runtime::Pulley,
        Runtime::Wasmi,
        Runtime::WasmiV1,
        Runtime::Stitch,
        Runtime::Wasm3,
        Runtime::Tinywasm,
        Runtime::Wamr,
        Runtime::WasmEdge,
        Runtime::SpaceWasm,
    ];
    assert(v@ =~= all_runtimes_spec());
    v
}

/// The name by which the command line selects `r`.
pub fn cli_name(r: Runtime) -> (s: &'static str)
    ensures
        s@ == cli_name_spec(r),
        r == Runtime::Wasmtime ==> s@ == "wasmtime"@,
        r == Runtime::Winch ==> s@ == "winch"@,
        r == Runtime::Pulley ==> s@ == "pulley"@,
        r == Runtime::Wasmi ==> s@ == "wasmi"@,
        r == Runtime::WasmiV1 ==> s@ == "wasmi-v1"@,
        r == Runtime::Stitch ==> s@ == "stitch"@,
        r == Runtime::Wasm3 ==> s@ == "wasm3"@,
        r == Runtime::Tinywasm ==> s@ == "tinywasm"@,
        r == Runtime::Wamr ==> s@ == "wamr"@,
        r == Runtime::WasmEdge ==> s@ == "wasmedge"@,
        r == Runtime::SpaceWasm ==> s@ == "spacewasm"@,
{
    match r {
        Runtime::Wasmtime => "wasmtime",
        Runtime::Winch => "winch",
        Runtime::Pulley => "pulley",
        Runtime::Wasmi => "wasmi",
        Runtime::WasmiV1 => "wasmi-v1",
        Runtime::Stitch => "stitch",
        Runtime::Wasm3 => "wasm3",
        Runtime::Tinywasm => "tinywasm",
        Runtime::Wamr => "wamr",
        Runtime::WasmEdge => "wasmedge",
        Runtime::SpaceWasm => "spacewasm",
    }
}

/// The name under which reports show `r`.
pub fn display_name(r: Runtime) -> (s: &'static str)
    ensures
        s@ == display_name_spec(r),
{
    match r {
        Runtime::Wasmtime => "Wasmtime v46",
        Runtime::Winch => "Winch v46",
        Runtime::Pulley => "Pulley v46",
        Runtime::Wasmi => "Wasmi v2",
        Runtime::WasmiV1 => "Wasmi v1",
        Runtime::Stitch => "Stitch",
        Runtime::Wasm3 => "Wasm3",
        Runtime::Tinywasm => "Tinywasm",
        Runtime::Wamr => "WAMR (fast interpreter)",
        Runtime::WasmEdge => "WasmEdge",
        Runtime::SpaceWasm => "SpaceWasm",
    }
}

/// No two runtimes share a command-line name, so a name selects at most one
/// runtime.
pub proof fn lemma_cli_names_distinct(a: Runtime, b: Runtime)
    ensures
        cli_name_spec(a) == cli_name_spec(b) ==> a == b,
{
    reveal_strlit("wasmtime");
    reveal_strlit("winch");
    reveal_strlit("pulley");
    reveal_strlit("wasmi");
    reveal_strlit("wasmi-v1");
    reveal_strlit("stitch");
    reveal_strlit("wasm3");
    reveal_strlit("tinywasm");
    reveal_strlit("wamr");
    reveal_strlit("wasmedge");
    reveal_strlit("spacewasm");
    if cli_name_spec(a) == cli_name_spec(b) && a != b {
        let x = cli_name_spec(a);
        let y = cli_name_spec(b);
        assert(x.len() == y.len());
        assert(x[0] == y[0]);
        assert(x[1] == y[1]);
        assert(x[2] == y[2]);
        assert(x[3] == y[3]);
        assert(x[4] == y[4]);
        assert(false);
    }
}

/// Every runtime stands once in the full list.
pub proof fn lemma_all_runtimes_complete(r: Runtime)
    ensures
        all_runtimes_spec().contains(r),
{
    let all = all_runtimes_spec();
    match r {
        Runtime::Wasmtime => assert(all[0] == r),
        Runtime::Winch => assert(all[1] == r),
        Runtime::Pulley => assert(all[2] == r),
        Runtime::Wasmi => assert(all[3] == r),
        Runtime::WasmiV1 => assert(all[4] == r),
        Runtime::Stitch => assert(all[5] == r),
        Runtime::Wasm3 => assert(all[6] == r),
        Runtime::Tinywasm => assert(all[7] == r),
        Runtime::Wamr => assert(all[8] == r),
        Runtime::WasmEdge => assert(all[9] == r),
        Runtime::SpaceWasm => assert(all[10] == r),
    }
}

/// Whether `r` is among `available`.
pub fn is_available(available: &Vec<Runtime>, r: Runtime) -> (b: bool)
    ensures
        b == available@.contains(r),
{
    let mut i: usize = 0;
    while i < available.len()
        invariant
            i <= available.len(),
            forall|j: int| 0 <= j < i ==> available@[j] != r,
        decreases available.len() - i,
    {
        if available[i] == r {
            assert(available@[i as int] == r);
            return true;
        }
        i = i + 1;
    }
    false
}

/// The available runtime whose command-line name is `name`, if there is one.
pub open spec fn lookup_spec(name: Seq<char>, available: Seq<Runtime>) -> Option<Runtime> {
    if exists|x: Runtime| available.contains(x) && cli_name_spec(x) == name {
        Some(choose|x: Runtime| available.contains(x) && cli_name_spec(x) == name)
    } else {
        None
    }
}

/// An available runtime is found under its own command-line name, and under
/// no other name.
pub proof fn lemma_lookup_finds_by_name(r: Runtime, name: Seq<char>, available: Seq<Runtime>)
    requires
        available.contains(r),
    ensures
        lookup_spec(name, available) == Some(r) <==> cli_name_spec(r) == name,
{
    if cli_name_spec(r) == name {
        let x = choose|x: Runtime| available.contains(x) && cli_name_spec(x) == name;
        lemma_cli_names_distinct(x, r);
    }
}

/// The available runtime whose command-line name is `name`, if there is one.
pub fn runtime_from_name(name: &String, available: &Vec<Runtime>) -> (r: Option<Runtime>)
    ensures
        r == lookup_spec(name@, available@),
{
    let all = all_runtimes();
    let mut i: usize = 0;
    while i < all.len()
        invariant
            i <= all.len(),
            all@ == all_runtimes_spec(),
            forall|j: int|
                0 <= j < i ==> !(available@.contains(#[trigger] all@[j]) && cli_name_spec(all@[j])
                    == name@),
        decreases all.len() - i,
    {
        let candidate = all[i];
        let candidate_name: String = cli_name(candidate).to_owned();
        if candidate_name == *name && is_available(available, candidate) {
            proof {
                lemma_lookup_finds_by_name(candidate, name@, available@);
            }
            return Some(candidate);
        }
        i = i + 1;
    }
    proof {
        assert forall|x: Runtime| available@.contains(x) implies cli_name_spec(x) != name@ by {
            lemma_all_runtimes_complete(x);
            let j = choose|j: int| 0 <= j < all@.len() && all@[j] == x;
            assert(!(available@.contains(all@[j]) && cli_name_spec(all@[j]) == name@));
        }
    }
    None
}

/// The available runtimes, in the order in which a full run visits them.
pub fn runs_in_order(available: &Vec<Runtime>) -> (v: Vec<Runtime>)
    ensures
        v@ == all_runtimes_spec().filter(|r: Runtime| available@.contains(r)),
{
    let all = all_runtimes();
    let ghost keep = |r: Runtime| available@.contains(r);
    let mut v: Vec<Runtime> = Vec::new();
    let mut i: usize = 0;
    while i < all.len()
        invariant
            i <= all.len(),
            all@ == all_runtimes_spec(),
            keep == (|r: Runtime| available@.contains(r)),
            v@ == all@.take(i as int).filter(keep),
        decreases all.len() - i,
    {
        proof {
            reveal_with_fuel(Seq::<_>::filter, 1);
            assert(all@.take((i + 1) as int).drop_last() =~= all@.take(i as int));
        }
        if is_available(available, all[i]) {
            v.push(all[i]);
        }
        i = i + 1;
    }
    assert(all@.take(all@.len() as int) =~= all@);
    v
}

/// No runtime stands twice in the full list.
pub proof fn lemma_all_runtimes_distinct()
    ensures
        all_runtimes_spec().no_duplicates(),
{
    let all = all_runtimes_spec();
    assert forall|i: int, j: int| 0 <= i < all.len() && 0 <= j < all.len() && i != j implies all[i]
        != all[j] by {
        lemma_cli_names_distinct(all[i], all[j]);
    }
}

proof fn lemma_filter_keeps_distinct(s: Seq<Runtime>, p: spec_fn(Runtime) -> bool)
    requires
        s.no_duplicates(),
    ensures
        s.filter(p).no_duplicates(),
    decreases s.len(),
{
    reveal_with_fuel(Seq::<_>::filter, 1);
    if s.len() > 0 {
        let rest = s.drop_last();
        assert(rest.no_duplicates());
        lemma_filter_keeps_distinct(rest, p);
        if p(s.last()) {
            let f = rest.filter(p);
            if f.contains(s.last()) {
                rest.lemma_filter_contains_rev(p, s.last());
                let k = choose|k: int| 0 <= k < rest.len() && rest[k] == s.last();
                assert(s[k] == s[s.len() - 1]);
            }
            assert(f.push(s.last()).no_duplicates());
        }
    }
}

/// A run without arguments visits every available runtime, no other, and
/// none twice.
pub proof fn lemma_full_run_visits_available_once(available: Seq<Runtime>)
    ensures
        forall|r: Runtime|
            all_runtimes_spec().filter(|x: Runtime| available.contains(x)).contains(r)
                <==> available.contains(r),
        all_runtimes_spec().filter(|x: Runtime| available.contains(x)).no_duplicates(),
{
    let p = |x: Runtime| available.contains(x);
    let all = all_runtimes_spec();
    lemma_all_runtimes_distinct();
    lemma_filter_keeps_distinct(all, p);
    assert forall|r: Runtime| all.filter(p).contains(r) <==> available.contains(r) by {
        if all.filter(p).contains(r) {
            all.lemma_filter_contains_rev(p, r);
            let k = choose|k: int| 0 <= k < all.filter(p).len() && all.filter(p)[k] == r;
            all.lemma_filter_pred(p, k);
        }
        if available.contains(r) {
            lemma_all_runtimes_complete(r);
            let k = choose|k: int| 0 <= k < all.len() && all[k] == r;
            all.lemma_filter_contains(p, k);
        }
    }
}

/// What a command line asks the benchmark to do.
#[derive(Clone, Copy, Debug, PartialEq, Eq, Structural)]
pub enum Command {
    /// No runtime named: run on every available runtime.
    RunAll,
    /// One available runtime named: run on it.
    RunNamed(Runtime),
    /// One argument that names no available runtime: show the usage text.
    UnknownName,
    /// Any other number of arguments: show the usage text.
    Usage,
}

/// What the arguments `args` (the program's name first) ask for, given the
/// runtimes that are available: no argument runs every available runtime,
/// one argument runs the runtime it names or, naming none, shows the usage
/// text, and any other count shows the usage text.
pub open spec fn command_spec(args: Seq<Seq<char>>, available: Seq<Runtime>) -> Command {
    if args.len() == 1 {
        Command::RunAll
    } else if args.len() == 2 {
        match lookup_spec(args[1], available) {
            Some(r) => Command::RunNamed(r),
            None => Command::UnknownName,
        }
    } else {
        Command::Usage
    }
}

/// The views of a list of strings.
pub open spec fn string_views(args: Seq<String>) -> Seq<Seq<char>> {
    args.map_values(|s: String| s@)
}

/// What the arguments `args` (the program's name first) ask for, given the
/// runtimes that are available.
pub fn parse_command(args: &Vec<String>, available: &Vec<Runtime>) -> (c: Command)
    ensures
        c == command_spec(string_views(args@), available@),
{
    if args.len() == 1 {
        Command::RunAll
    } else if args.len() == 2 {
        match runtime_from_name(&args[1], available) {
            Some(r) => Command::RunNamed(r),
            None => Command::UnknownName,
        }
    } else {
        Command::Usage
    }
}

/// Naming an available runtime on the command line runs exactly that
/// runtime, whatever the program is called.
pub proof fn lemma_named_run_selects(program: Seq<char>, r: Runtime, available: Seq<Runtime>)
    requires
        available.contains(r),
    ensures
        command_spec(seq![program, cli_name_spec(r)], available) == Command::RunNamed(r),
{
    lemma_lookup_finds_by_name(r, cli_name_spec(r), available);
}

/// The word that selects each runtime on the command line is fixed:
/// `wasmtime`, `winch`, `pulley`, `wasmi`, `wasmi-v1`, `stitch`, `wasm3`,
/// `tinywasm`, `wamr`, `wasmedge` and `spacewasm`. Whatever the program is
/// called, giving that word alone runs that runtime, when it is available.
pub proof fn lemma_command_words(program: Seq<char>, r: Runtime, available: Seq<Runtime>)
    requires
        available.contains(r),
    ensures
        command_spec(
            seq![
                program,
                match r {
                    Runtime::Wasmtime => "wasmtime"@,
                    Runtime::Winch => "winch"@,
                    Runtime::Pulley => "pulley"@,
                    Runtime::Wasmi => "wasmi"@,
                    Runtime::WasmiV1 => "wasmi-v1"@,
                    Runtime::Stitch => "stitch"@,
                    Runtime::Wasm3 => "wasm3"@,
                    Runtime::Tinywasm => "tinywasm"@,
                    Runtime::Wamr => "wamr"@,
                    Runtime::WasmEdge => "wasmedge"@,
                    Runtime::SpaceWasm => "spacewasm"@,
                },
            ],
            available,
        ) == Command::RunNamed(r),
{
    lemma_named_run_selects(program, r, available);
}

/// A name that no available runtime carries asks for the usage text.
pub proof fn lemma_unknown_name_shows_usage(program: Seq<char>, name: Seq<char>, available: Seq<Runtime>)
    requires
        forall|x: Runtime| available.contains(x) ==> cli_name_spec(x) != name,
    ensures
        command_spec(seq![program, name], available) == Command::UnknownName,
{
}

/// `names` joined with `", "` between neighbours.
pub open spec fn join_names(names: Seq<Seq<char>>) -> Seq<char>
    decreases names.len(),
{
    if names.len() == 0 {
        Seq::empty()
    } else if names.len() == 1 {
        names[0]
    } else {
        join_names(names.drop_last()) + seq![',', ' '] + names.last()
    }
}

/// The command-line names the usage text lists, in the order of a full
/// run: those of every runtime but the last one, SpaceWasm, which the usage
/// text does not offer.
pub open spec fn listed_cli_names() -> Seq<Seq<char>> {
    all_runtimes_spec().drop_last().map_values(|r: Runtime| cli_name_spec(r))
}

/// The command-line names the usage text lists, joined with `", "`.
pub fn possible_values() -> (s: String)
    ensures
        s@ == join_names(listed_cli_names()),
{
    let all = all_runtimes();
    let listed: usize = all.len() - 1;
    let ghost names = listed_cli_names();
    let mut s = String::new();
    let mut i: usize = 0;
    while i < listed
        invariant
            i <= listed,
            listed == all@.len() - 1,
            all@ == all_runtimes_spec(),
            names == listed_cli_names(),
            names.len() == listed,
            s@ == join_names(names.take(i as int)),
        decreases listed - i,
    {
        assert(names.take((i + 1) as int).drop_last() =~= names.take(i as int));
        if i > 0 {
            s.append(", ");
            proof {
                reveal_strlit(", ");
            }
        }
        s.append(cli_name(all[i]));
        proof {
            let t = names.take((i + 1) as int);
            assert(t.last() == cli_name_spec(all@[i as int]));
            if i == 0 {
                assert(s@ =~= t[0]);
            } else {
                assert(s@ =~= join_names(t.drop_last()) + seq![',', ' '] + t.last());
            }
        }
        i = i + 1;
    }
    assert(names.take(listed as int) =~= names);
    s
}

/// The usage text, for a program invoked as `program`.
pub open spec fn help_text_spec(program: Seq<char>) -> Seq<char> {
    "Usage: "@ + program + " [<WASM_RUNTIME>]\n\n"@
        + "WASM_RUNTIME: The WebAssembly runtime with which Coremark is run.\n"@
        + "              All available runners are used if the argument is not provided.\n"@
        + "\n"@ + "              Possible Values: "@ + join_names(listed_cli_names())
}

/// The usage text, for a program invoked as `program`.
pub fn help_text(program: &str) -> (s: String)
    ensures
        s@ == help_text_spec(program@),
{
    let mut s = String::from_str("Usage: ");
    s.append(program);
    s.append(" [<WASM_RUNTIME>]\n\n");
    s.append("WASM_RUNTIME: The WebAssembly runtime with which Coremark is run.\n");
    s.append("              All available runners are used if the argument is not provided.\n");
    s.append("\n");
    s.append("              Possible Values: ");
    let values = possible_values();
    s.append(values.as_str());
    s
}

/// The line announcing a run on the runtime the command line named `engine`.
pub fn named_run_banner(engine: &str) -> (s: String)
    ensures
        s@ == "Running Coremark using "@ + engine@ + " ... [should take 12..20 seconds]"@,
{
    let mut s = String::from_str("Running Coremark using ");
    s.append(engine);
    s.append(" ... [should take 12..20 seconds]");
    s
}

/// The line announcing a run on `r` during a full run.
pub fn run_all_banner(r: Runtime) -> (s: String)
    ensures
        s@ == "Running Coremark using "@ + display_name_spec(r) + " ..."@,
{
    let mut s = String::from_str("Running Coremark using ");
    s.append(display_name(r));
    s.append(" ...");
    s
}

} // verus!
