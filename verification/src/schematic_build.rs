use vstd::prelude::*;
use crate::chars::{replaced, replace_all, split_once, split_once_str, strings_view, trim_char, trim_char_chars};
use crate::config::{parse_i64, parse_i64_spec};
use crate::envfile::pairs_view;
use crate::error::VirtuosoError;
use crate::models::VirtuosoResult;
use crate::schematic_ops::{self, SchematicOps};
use crate::text::{chars_of, joined, join_strings, push_str, string_from, string_of};
use crate::chars::trim;

verus! {

/// A Cadence symbol orientation: exactly the eight values SKILL accepts.
#[derive(Clone, Copy, Debug, PartialEq, Eq, Structural)]
pub enum Orient {
    R0,
    R90,
    R180,
    R270,
    MX,
    MY,
    MXR90,
    MYR90,
}

/// The SKILL name of an orientation.
pub open spec fn orient_text(o: Orient) -> Seq<char> {
    match o {
        Orient::R0 => "R0"@,
        Orient::R90 => "R90"@,
        Orient::R180 => "R180"@,
        Orient::R270 => "R270"@,
        Orient::MX => "MX"@,
        Orient::MY => "MY"@,
        Orient::MXR90 => "MXR90"@,
        Orient::MYR90 => "MYR90"@,
    }
}

impl Orient {
    /// The SKILL name of the orientation.
    pub fn as_str(&self) -> (r: &'static str)
        ensures
            r@ == orient_text(*self),
    {
        match self {
            Orient::R0 => "R0",
            Orient::R90 => "R90",
            Orient::R180 => "R180",
            Orient::R270 => "R270",
            Orient::MX => "MX",
            Orient::MY => "MY",
            Orient::MXR90 => "MXR90",
            Orient::MYR90 => "MYR90",
        }
    }
}

/// The cellview a schematic spec builds.
#[derive(Debug)]
pub struct SpecTarget {
    pub lib: String,
    pub cell: String,
    pub view: String,
}

/// An instance to place: `master` is `lib/cell`. Its parameters are kept
/// in the order given.
#[derive(Debug)]
pub struct SpecInstance {
    pub name: String,
    pub master: String,
    pub x: i64,
    pub y: i64,
    pub orient: Orient,
    pub params: Vec<(String, String)>,
}

/// A net between two terminals, each `inst:term`.
#[derive(Debug)]
pub struct SpecConnection {
    pub net: String,
    pub from: String,
    pub to: String,
}

/// A global net and the terminals (`inst:term`) on it.
#[derive(Debug)]
pub struct SpecGlobal {
    pub net: String,
    pub insts: Vec<String>,
}

/// A pin to create.
#[derive(Debug)]
pub struct SpecPin {
    pub net: String,
    pub pin_type: String,
    pub connect: Option<String>,
    pub x: i64,
    pub y: i64,
}

/// A whole schematic, as a build spec describes it.
#[derive(Debug)]
pub struct SchematicSpec {
    pub target: SpecTarget,
    pub instances: Vec<SpecInstance>,
    pub connections: Vec<SpecConnection>,
    pub globals: Vec<SpecGlobal>,
    pub pins: Vec<SpecPin>,
}

// ───────────────────────── placing instances ─────────────────────────

/// The commands that set each parameter of instance `name`, in order.
pub open spec fn param_texts(name: Seq<char>, params: Seq<(String, String)>) -> Seq<Seq<char>> {
    params.map_values(|p: (String, String)| schematic_ops::set_instance_param_text(name, p.0@, p.1@))
}

/// The commands that place one instance of `lib`/`cell` and set its parameters.
pub open spec fn instance_texts(lib: Seq<char>, cell: Seq<char>, name: Seq<char>, x: i64, y: i64,
    params: Seq<(String, String)>) -> Seq<Seq<char>> {
    seq![schematic_ops::create_instance_text(lib, cell, "symbol"@, name, (x, y))] + param_texts(name, params)
}

fn push_text(v: &mut Vec<String>, s: String)
    ensures
        strings_view(final(v)@) == strings_view(old(v)@).push(s@),
{
    let ghost before = v@;
    v.push(s);
    assert(strings_view(v@) =~= strings_view(before).push(s@));
}

fn push_instance(cmds: &mut Vec<String>, lib: &str, cell: &str, name: &str, x: i64, y: i64, params: &Vec<(String, String)>)
    ensures
        strings_view(final(cmds)@) == strings_view(old(cmds)@) + instance_texts(lib@, cell@, name@, x, y, params@),
{
    let ops = SchematicOps::new();
    let ghost start = strings_view(cmds@);
    push_text(cmds, ops.create_instance(lib, cell, "symbol", name, (x, y)));
    for i in 0..params.len()
        invariant
            strings_view(cmds@) == start + seq![schematic_ops::create_instance_text(lib@, cell@, "symbol"@, name@, (x, y))]
                + param_texts(name@, params@.take(i as int)),
    {
        push_text(cmds, ops.set_instance_param(name, params[i].0.as_str(), params[i].1.as_str()));
        assert(param_texts(name@, params@.take(i + 1)) =~= param_texts(name@, params@.take(i as int))
            .push(schematic_ops::set_instance_param_text(name@, params@[i as int].0@, params@[i as int].1@)));
    }
    assert(params@.take(params.len() as int) == params@);
}

/// The `place` command's edits: an instance of `master` (`lib/cell`) with
/// its parameters.
pub fn place_commands(master: &str, name: &str, x: i64, y: i64, params: &Vec<(String, String)>) -> (r: Result<Vec<String>, VirtuosoError>)
    ensures
        match split_once(master@, '/') {
            Some((lib, cell)) => r matches Ok(v) && strings_view(v@) == instance_texts(lib, cell, name@, x, y, params@),
            None => r matches Err(VirtuosoError::Config(m)) && m@ == "--master must be lib/cell format"@,
        },
{
    match split_once_str(master, '/') {
        Some((lib, cell)) => {
            let mut v: Vec<String> = Vec::new();
            assert(strings_view(v@) =~= Seq::<Seq<char>>::empty());
            push_instance(&mut v, lib.as_str(), cell.as_str(), name, x, y, params);
            assert(Seq::<Seq<char>>::empty() + instance_texts(lib@, cell@, name@, x, y, params@)
                =~= instance_texts(lib@, cell@, name@, x, y, params@));
            Ok(v)
        },
        None => Err(VirtuosoError::Config(string_from("--master must be lib/cell format"))),
    }
}

/// The placement commands of a build: each instance in order, or the first
/// instance whose master is not `lib/cell`.
pub open spec fn placement_texts(insts: Seq<SpecInstance>) -> Result<Seq<Seq<char>>, Seq<char>>
    decreases insts.len(),
{
    if insts.len() == 0 {
        Ok(Seq::empty())
    } else {
        match placement_texts(insts.drop_last()) {
            Err(e) => Err(e),
            Ok(done) => {
                let inst = insts.last();
                match split_once(inst.master@, '/') {
                    Some((lib, cell)) => Ok(done + instance_texts(lib, cell, inst.name@, inst.x, inst.y, inst.params@)),
                    None => Err("Instance "@ + inst.name@ + " master '"@ + inst.master@ + "' must be lib/cell"@),
                }
            },
        }
    }
}

/// Whether a result is `Err(Config(m))` with the given message.
pub open spec fn config_error_is<T>(r: Result<T, VirtuosoError>, m: Seq<char>) -> bool {
    r matches Err(VirtuosoError::Config(x)) && x@ == m
}

/// The edits that place a build's instances.
pub fn placement_commands(spec: &SchematicSpec) -> (r: Result<Vec<String>, VirtuosoError>)
    ensures
        match placement_texts(spec.instances@) {
            Ok(t) => r matches Ok(v) && strings_view(v@) == t,
            Err(m) => config_error_is(r, m),
        },
{
    let insts = &spec.instances;
    let mut v: Vec<String> = Vec::new();
    assert(strings_view(v@) =~= Seq::<Seq<char>>::empty());
    for i in 0..insts.len()
        invariant
            insts == &spec.instances,
            placement_texts(insts@.take(i as int)) == Ok::<Seq<Seq<char>>, Seq<char>>(strings_view(v@)),
    {
        assert(insts@.take(i + 1).drop_last() == insts@.take(i as int));
        assert(insts@.take(i + 1).last() == insts@[i as int]);
        let inst = &insts[i];
        match split_once_str(inst.master.as_str(), '/') {
            Some((lib, cell)) => {
                push_instance(&mut v, lib.as_str(), cell.as_str(), inst.name.as_str(), inst.x, inst.y, &inst.params);
            },
            None => {
                let mut m = string_from("Instance ");
                push_str(&mut m, inst.name.as_str());
                push_str(&mut m, " master '");
                push_str(&mut m, inst.master.as_str());
                push_str(&mut m, "' must be lib/cell");
                proof { lemma_placement_error_sticks(insts@, i as int + 1); }
                return Err(VirtuosoError::Config(m));
            },
        }
    }
    assert(insts@.take(insts.len() as int) == insts@);
    Ok(v)
}

proof fn lemma_placement_error_sticks(insts: Seq<SpecInstance>, k: int)
    requires
        0 <= k <= insts.len(),
        placement_texts(insts.take(k)) is Err,
    ensures
        placement_texts(insts) == placement_texts(insts.take(k)),
    decreases insts.len() - k,
{
    if k < insts.len() {
        assert(insts.take(k + 1).drop_last() == insts.take(k));
        lemma_placement_error_sticks(insts, k + 1);
    } else {
        assert(insts.take(k) == insts);
    }
}

// ───────────────────────── connections ─────────────────────────

/// A terminal assignment: instance, terminal, net.
pub type Assignment = (Seq<char>, Seq<char>, Seq<char>);

/// The assignments of the two-terminal connections, or the first bad end.
pub open spec fn connection_assignments_of(conns: Seq<SpecConnection>) -> Result<Seq<Assignment>, Seq<char>>
    decreases conns.len(),
{
    if conns.len() == 0 {
        Ok(Seq::empty())
    } else {
        match connection_assignments_of(conns.drop_last()) {
            Err(e) => Err(e),
            Ok(done) => {
                let c = conns.last();
                match split_once(c.from@, ':') {
                    None => Err("Bad from '"@ + c.from@ + "' in connection"@),
                    Some((i1, t1)) => match split_once(c.to@, ':') {
                        None => Err("Bad to '"@ + c.to@ + "' in connection"@),
                        Some((i2, t2)) => Ok(done.push((i1, t1, c.net@)).push((i2, t2, c.net@))),
                    },
                }
            },
        }
    }
}

/// The assignments of one global net's terminals, or the first bad one.
pub open spec fn global_assignments_of(net: Seq<char>, terms: Seq<String>) -> Result<Seq<Assignment>, Seq<char>>
    decreases terms.len(),
{
    if terms.len() == 0 {
        Ok(Seq::empty())
    } else {
        match global_assignments_of(net, terms.drop_last()) {
            Err(e) => Err(e),
            Ok(done) => match split_once(terms.last()@, ':') {
                None => Err("Bad global '"@ + terms.last()@ + "' in "@ + net),
                Some((inst, term)) => Ok(done.push((inst, term, net))),
            },
        }
    }
}

/// The assignments of all global nets, in order, or the first bad terminal.
pub open spec fn globals_assignments_of(globals: Seq<SpecGlobal>) -> Result<Seq<Assignment>, Seq<char>>
    decreases globals.len(),
{
    if globals.len() == 0 {
        Ok(Seq::empty())
    } else {
        match globals_assignments_of(globals.drop_last()) {
            Err(e) => Err(e),
            Ok(done) => match global_assignments_of(globals.last().net@, globals.last().insts@) {
                Err(e) => Err(e),
                Ok(more) => Ok(done + more),
            },
        }
    }
}

/// Every terminal assignment of a build: the connections' then the
/// globals', or the first malformed terminal.
pub open spec fn build_assignments(spec: SchematicSpec) -> Result<Seq<Assignment>, Seq<char>> {
    match connection_assignments_of(spec.connections@) {
        Err(e) => Err(e),
        Ok(a) => match globals_assignments_of(spec.globals@) {
            Err(e) => Err(e),
            Ok(b) => Ok(a + b),
        },
    }
}

/// The views of a list of assignments.
pub open spec fn assignments_view(v: Seq<(String, String, String)>) -> Seq<Assignment> {
    v.map_values(|a: (String, String, String)| (a.0@, a.1@, a.2@))
}

fn push_assignment(v: &mut Vec<(String, String, String)>, inst: String, term: String, net: &str)
    ensures
        assignments_view(final(v)@) == assignments_view(old(v)@).push((inst@, term@, net@)),
{
    let ghost before = v@;
    v.push((inst, term, string_from(net)));
    assert(assignments_view(v@) =~= assignments_view(before).push((inst@, term@, net@)));
}

proof fn lemma_err_sticks_conn(conns: Seq<SpecConnection>, k: int)
    requires
        0 <= k <= conns.len(),
        connection_assignments_of(conns.take(k)) is Err,
    ensures
        connection_assignments_of(conns) == connection_assignments_of(conns.take(k)),
    decreases conns.len() - k,
{
    if k < conns.len() {
        assert(conns.take(k + 1).drop_last() == conns.take(k));
        lemma_err_sticks_conn(conns, k + 1);
    } else {
        assert(conns.take(k) == conns);
    }
}

proof fn lemma_err_sticks_global(net: Seq<char>, terms: Seq<String>, k: int)
    requires
        0 <= k <= terms.len(),
        global_assignments_of(net, terms.take(k)) is Err,
    ensures
        global_assignments_of(net, terms) == global_assignments_of(net, terms.take(k)),
    decreases terms.len() - k,
{
    if k < terms.len() {
        assert(terms.take(k + 1).drop_last() == terms.take(k));
        lemma_err_sticks_global(net, terms, k + 1);
    } else {
        assert(terms.take(k) == terms);
    }
}

proof fn lemma_err_sticks_globals(globals: Seq<SpecGlobal>, k: int)
    requires
        0 <= k <= globals.len(),
        globals_assignments_of(globals.take(k)) is Err,
    ensures
        globals_assignments_of(globals) == globals_assignments_of(globals.take(k)),
    decreases globals.len() - k,
{
    if k < globals.len() {
        assert(globals.take(k + 1).drop_last() == globals.take(k));
        lemma_err_sticks_globals(globals, k + 1);
    } else {
        assert(globals.take(k) == globals);
    }
}

fn global_assignments(net: &String, terms: &Vec<String>, out: &mut Vec<(String, String, String)>) -> (r: Result<(), VirtuosoError>)
    ensures
        match global_assignments_of(net@, terms@) {
            Ok(more) => r is Ok && assignments_view(final(out)@) == assignments_view(old(out)@) + more,
            Err(m) => config_error_is(r, m),
        },
{
    let ghost start = assignments_view(out@);
    for i in 0..terms.len()
        invariant
            global_assignments_of(net@, terms@.take(i as int)) matches Ok(done) && assignments_view(out@) == start + done,
    {
        assert(terms@.take(i + 1).drop_last() == terms@.take(i as int));
        assert(terms@.take(i + 1).last() == terms@[i as int]);
        match split_once_str(terms[i].as_str(), ':') {
            Some((inst, term)) => {
                push_assignment(out, inst, term, net.as_str());
            },
            None => {
                let mut m = string_from("Bad global '");
                push_str(&mut m, terms[i].as_str());
                push_str(&mut m, "' in ");
                push_str(&mut m, net.as_str());
                proof { lemma_err_sticks_global(net@, terms@, i as int + 1); }
                return Err(VirtuosoError::Config(m));
            },
        }
    }
    assert(terms@.take(terms.len() as int) == terms@);
    Ok(())
}

/// The terminal assignments of a build (connections, then globals).
pub fn connection_assignments(spec: &SchematicSpec) -> (r: Result<Vec<(String, String, String)>, VirtuosoError>)
    ensures
        match build_assignments(*spec) {
            Ok(a) => r matches Ok(v) && assignments_view(v@) == a,
            Err(m) => config_error_is(r, m),
        },
{
    let conns = &spec.connections;
    let mut v: Vec<(String, String, String)> = Vec::new();
    assert(assignments_view(v@) =~= Seq::<Assignment>::empty());
    for i in 0..conns.len()
        invariant
            conns == &spec.connections,
            connection_assignments_of(conns@.take(i as int)) == Ok::<Seq<Assignment>, Seq<char>>(assignments_view(v@)),
    {
        assert(conns@.take(i + 1).drop_last() == conns@.take(i as int));
        assert(conns@.take(i + 1).last() == conns@[i as int]);
        let c = &conns[i];
        let (i1, t1) = match split_once_str(c.from.as_str(), ':') {
            Some(p) => p,
            None => {
                let mut m = string_from("Bad from '");
                push_str(&mut m, c.from.as_str());
                push_str(&mut m, "' in connection");
                proof { lemma_err_sticks_conn(conns@, i as int + 1); }
                return Err(VirtuosoError::Config(m));
            },
        };
        let (i2, t2) = match split_once_str(c.to.as_str(), ':') {
            Some(p) => p,
            None => {
                let mut m = string_from("Bad to '");
                push_str(&mut m, c.to.as_str());
                push_str(&mut m, "' in connection");
                proof { lemma_err_sticks_conn(conns@, i as int + 1); }
                return Err(VirtuosoError::Config(m));
            },
        };
        push_assignment(&mut v, i1, t1, c.net.as_str());
        push_assignment(&mut v, i2, t2, c.net.as_str());
    }
    assert(conns@.take(conns.len() as int) == conns@);
    let globals = &spec.globals;
    let ghost conn_part = assignments_view(v@);
    assert(globals_assignments_of(globals@.take(0)) == Ok::<Seq<Assignment>, Seq<char>>(Seq::empty()));
    for g in 0..globals.len()
        invariant
            globals == &spec.globals,
            connection_assignments_of(spec.connections@) == Ok::<Seq<Assignment>, Seq<char>>(conn_part),
            globals_assignments_of(globals@.take(g as int)) matches Ok(done) && assignments_view(v@) == conn_part + done,
    {
        assert(globals@.take(g + 1).drop_last() == globals@.take(g as int));
        assert(globals@.take(g + 1).last() == globals@[g as int]);
        let ghost before = assignments_view(v@);
        match global_assignments(&globals[g].net, &globals[g].insts, &mut v) {
            Ok(()) => {
                assert(assignments_view(v@) == conn_part + globals_assignments_of(globals@.take(g + 1))->Ok_0);
            },
            Err(e) => {
                assert(globals_assignments_of(globals@.take(g + 1)) is Err);
                proof { lemma_err_sticks_globals(globals@, g as int + 1); }
                return Err(e);
            },
        }
    }
    assert(globals@.take(globals.len() as int) == globals@);
    Ok(v)
}

/// The SKILL script that makes the assignments with `RB_connectTerminal`.
pub open spec fn connection_script_text(assignments: Seq<Assignment>) -> Seq<char> {
    joined(seq!["let((cv)"@, "cv = RB_SCH_CV"@]
        + assignments.map_values(|a: Assignment| "RB_connectTerminal(cv \""@ + a.0 + "\" \""@ + a.1 + "\" \""@ + a.2 + "\")"@)
        + seq!["t)"@], "\n"@)
}

/// The connection script of a build.
pub fn connection_script(assignments: &Vec<(String, String, String)>) -> (r: String)
    ensures
        r@ == connection_script_text(assignments_view(assignments@)),
{
    let ghost av = assignments_view(assignments@);
    let ghost f = |a: Assignment| "RB_connectTerminal(cv \""@ + a.0 + "\" \""@ + a.1 + "\" \""@ + a.2 + "\")"@;
    let mut lines: Vec<String> = Vec::new();
    push_text(&mut lines, string_from("let((cv)"));
    push_text(&mut lines, string_from("cv = RB_SCH_CV"));
    assert(strings_view(lines@) =~= seq!["let((cv)"@, "cv = RB_SCH_CV"@] + av.take(0).map_values(f));
    for i in 0..assignments.len()
        invariant
            av == assignments_view(assignments@),
            f == (|a: Assignment| "RB_connectTerminal(cv \""@ + a.0 + "\" \""@ + a.1 + "\" \""@ + a.2 + "\")"@),
            strings_view(lines@) == seq!["let((cv)"@, "cv = RB_SCH_CV"@] + av.take(i as int).map_values(f),
    {
        let (inst, term, net) = (&assignments[i].0, &assignments[i].1, &assignments[i].2);
        let mut l = string_from("RB_connectTerminal(cv \"");
        push_str(&mut l, inst.as_str());
        push_str(&mut l, "\" \"");
        push_str(&mut l, term.as_str());
        push_str(&mut l, "\" \"");
        push_str(&mut l, net.as_str());
        push_str(&mut l, "\")");
        push_text(&mut lines, l);
        assert(av.take(i + 1) == av.take(i as int).push(av[i as int]));
        assert(strings_view(lines@) =~= seq!["let((cv)"@, "cv = RB_SCH_CV"@] + av.take(i + 1).map_values(f));
    }
    assert(av.take(assignments.len() as int) == av);
    push_text(&mut lines, string_from("t)"));
    assert(strings_view(lines@) =~= seq!["let((cv)"@, "cv = RB_SCH_CV"@] + av.map_values(f) + seq!["t)"@]);
    let r = join_strings(lines.as_slice(), "\n");
    assert(lines@.map_values(|s: String| s@) == strings_view(lines@));
    r
}

// ───────────────────────── pins and the rest ─────────────────────────

/// The commands that create a build's pins, in order.
pub open spec fn pin_texts(pins: Seq<SpecPin>) -> Seq<Seq<char>> {
    pins.map_values(|p: SpecPin| schematic_ops::create_pin_text(p.net@, p.pin_type@, (p.x, p.y)))
}

/// The edits that create a build's pins.
pub fn pin_commands(spec: &SchematicSpec) -> (r: Vec<String>)
    ensures
        strings_view(r@) == pin_texts(spec.pins@),
{
    let ops = SchematicOps::new();
    let pins = &spec.pins;
    let mut v: Vec<String> = Vec::new();
    for i in 0..pins.len()
        invariant
            pins == &spec.pins,
            strings_view(v@) == pin_texts(pins@.take(i as int)),
    {
        push_text(&mut v, ops.create_pin(pins[i].net.as_str(), pins[i].pin_type.as_str(), (pins[i].x, pins[i].y)));
        assert(pins@.take(i + 1) == pins@.take(i as int).push(pins@[i as int]));
        assert(pin_texts(pins@.take(i + 1)) =~= pin_texts(pins@.take(i as int)).push(
            schematic_ops::create_pin_text(pins@[i as int].net@, pins@[i as int].pin_type@, (pins@[i as int].x, pins@[i as int].y))));
    }
    assert(pins@.take(pins.len() as int) == pins@);
    v
}

/// `lib/cell/view`, the target a build reports.
pub fn build_target(spec: &SchematicSpec) -> (r: String)
    ensures
        r@ == spec.target.lib@ + "/"@ + spec.target.cell@ + "/"@ + spec.target.view@,
{
    let mut r = string_from(spec.target.lib.as_str());
    push_str(&mut r, "/");
    push_str(&mut r, spec.target.cell.as_str());
    push_str(&mut r, "/");
    push_str(&mut r, spec.target.view.as_str());
    r
}

/// How many connections a build reports: the two-terminal ones plus the
/// global nets.
pub fn build_connection_count(spec: &SchematicSpec) -> (r: usize)
    requires
        spec.connections@.len() + spec.globals@.len() <= usize::MAX,
    ensures
        r == spec.connections@.len() + spec.globals@.len(),
{
    spec.connections.len() + spec.globals.len()
}

/// `load("<path>")`, as the build writes it (the path is not escaped).
pub fn load_file_skill(path: &str) -> (r: String)
    ensures
        r@ == "load(\""@ + path@ + "\")"@,
{
    let mut r = string_from("load(\"");
    push_str(&mut r, path);
    push_str(&mut r, "\")");
    r
}

/// A step of a build or edit went through when its SKILL result is ok;
/// otherwise the step fails with `<what>: <output>`.
pub fn check_step(r: &VirtuosoResult, what: &str) -> (res: Result<(), VirtuosoError>)
    ensures
        (r.status == crate::models::ExecutionStatus::Success && trim(r.output@) != "nil"@) ==> res is Ok,
        !(r.status == crate::models::ExecutionStatus::Success && trim(r.output@) != "nil"@) ==>
            (res matches Err(VirtuosoError::Execution(m)) && m@ == what@ + ": "@ + r.output@),
{
    if r.skill_ok() {
        Ok(())
    } else {
        let mut m = string_from(what);
        push_str(&mut m, ": ");
        push_str(&mut m, r.output.as_str());
        Err(VirtuosoError::Execution(m))
    }
}

// ───────────────────────── command-line values ─────────────────────────

/// The point `x,y` a text gives, or why not.
pub open spec fn point_of(s: Seq<char>) -> Result<(i64, i64), Seq<char>> {
    match split_once(s, ',') {
        None => Err("Point '"@ + s + "' must be x,y"@),
        Some((x, y)) => match parse_i64_spec(x) {
            None => Err("Bad x: "@ + x),
            Some(xv) => match parse_i64_spec(y) {
                None => Err("Bad y: "@ + y),
                Some(yv) => Ok((xv as i64, yv as i64)),
            },
        },
    }
}

/// The points the texts give, or the first text's error.
pub open spec fn points_of(ps: Seq<Seq<char>>) -> Result<Seq<(i64, i64)>, Seq<char>>
    decreases ps.len(),
{
    if ps.len() == 0 {
        Ok(Seq::empty())
    } else {
        match points_of(ps.drop_last()) {
            Err(e) => Err(e),
            Ok(done) => match point_of(ps.last()) {
                Err(e) => Err(e),
                Ok(p) => Ok(done.push(p)),
            },
        }
    }
}

proof fn lemma_points_err_sticks(ps: Seq<Seq<char>>, k: int)
    requires
        0 <= k <= ps.len(),
        points_of(ps.take(k)) is Err,
    ensures
        points_of(ps) == points_of(ps.take(k)),
    decreases ps.len() - k,
{
    if k < ps.len() {
        assert(ps.take(k + 1).drop_last() == ps.take(k));
        lemma_points_err_sticks(ps, k + 1);
    } else {
        assert(ps.take(k) == ps);
    }
}

/// Parses `x,y` points given on the command line.
pub fn parse_points(points: &Vec<String>) -> (r: Result<Vec<(i64, i64)>, VirtuosoError>)
    ensures
        match points_of(strings_view(points@)) {
            Ok(ps) => r matches Ok(v) && v@ == ps,
            Err(m) => config_error_is(r, m),
        },
{
    let ghost sv = strings_view(points@);
    let mut v: Vec<(i64, i64)> = Vec::new();
    for i in 0..points.len()
        invariant
            sv == strings_view(points@),
            points_of(sv.take(i as int)) == Ok::<Seq<(i64, i64)>, Seq<char>>(v@),
    {
        assert(sv.take(i + 1).drop_last() == sv.take(i as int));
        assert(sv.take(i + 1).last() == points@[i as int]@);
        let s = points[i].as_str();
        let (x, y) = match split_once_str(s, ',') {
            Some(p) => p,
            None => {
                let mut m = string_from("Point '");
                push_str(&mut m, s);
                push_str(&mut m, "' must be x,y");
                proof { lemma_points_err_sticks(sv, i as int + 1); }
                return Err(VirtuosoError::Config(m));
            },
        };
        let xv = match parse_i64(x.as_str()) {
            Some(xv) => xv,
            None => {
                let mut m = string_from("Bad x: ");
                push_str(&mut m, x.as_str());
                proof { lemma_points_err_sticks(sv, i as int + 1); }
                return Err(VirtuosoError::Config(m));
            },
        };
        let yv = match parse_i64(y.as_str()) {
            Some(yv) => yv,
            None => {
                let mut m = string_from("Bad y: ");
                push_str(&mut m, y.as_str());
                proof { lemma_points_err_sticks(sv, i as int + 1); }
                return Err(VirtuosoError::Config(m));
            },
        };
        v.push((xv, yv));
    }
    assert(sv.take(points.len() as int) == sv);
    Ok(v)
}

/// The `conn` command's edits: both terminals (`inst:term`) onto `net`.
pub fn conn_commands(net: &str, from: &str, to: &str) -> (r: Result<Vec<String>, VirtuosoError>)
    ensures
        match (split_once(from@, ':'), split_once(to@, ':')) {
            (None, _) => config_error_is(r, "--from must be inst:term format"@),
            (Some(_), None) => config_error_is(r, "--to must be inst:term format"@),
            (Some((i1, t1)), Some((i2, t2))) => r matches Ok(v) && strings_view(v@)
                == seq![schematic_ops::assign_net_text(i1, t1, net@), schematic_ops::assign_net_text(i2, t2, net@)],
        },
{
    let (i1, t1) = match split_once_str(from, ':') {
        Some(p) => p,
        None => return Err(VirtuosoError::Config(string_from("--from must be inst:term format"))),
    };
    let (i2, t2) = match split_once_str(to, ':') {
        Some(p) => p,
        None => return Err(VirtuosoError::Config(string_from("--to must be inst:term format"))),
    };
    let ops = SchematicOps::new();
    let mut v: Vec<String> = Vec::new();
    push_text(&mut v, ops.assign_net(i1.as_str(), t1.as_str(), net));
    push_text(&mut v, ops.assign_net(i2.as_str(), t2.as_str(), net));
    assert(strings_view(v@) =~= seq![schematic_ops::assign_net_text(i1@, t1@, net@), schematic_ops::assign_net_text(i2@, t2@, net@)]);
    Ok(v)
}

/// A `KEY=VALUE` argument split at its first `=`.
pub fn parse_key_val(s: &str) -> (r: Result<(String, String), String>)
    ensures
        match split_once(s@, '=') {
            Some((k, v)) => r matches Ok((a, b)) && a@ == k && b@ == v,
            None => r matches Err(m) && m@ == "invalid KEY=VALUE: no '=' in '"@ + s@ + "'"@,
        },
{
    match split_once_str(s, '=') {
        Some(p) => Ok(p),
        None => {
            let mut m = string_from("invalid KEY=VALUE: no '=' in '");
            push_str(&mut m, s);
            push_str(&mut m, "'");
            Err(m)
        },
    }
}

/// The pieces of `s` between commas, as `str::split(',')` gives them (one
/// empty piece for an empty text).
pub open spec fn comma_pieces(s: Seq<char>) -> Seq<Seq<char>>
    decreases s.len(),
{
    if s.len() == 0 {
        seq![Seq::<char>::empty()]
    } else {
        let p = comma_pieces(s.drop_last());
        if s.last() == ',' {
            p.push(Seq::<char>::empty())
        } else {
            p.update(p.len() - 1, p.last().push(s.last()))
        }
    }
}

/// The `key=value` pairs among `pieces`: each non-empty piece that holds an
/// `=`, split at its first one; the others are skipped.
pub open spec fn param_pairs(pieces: Seq<Seq<char>>) -> Seq<(Seq<char>, Seq<char>)>
    decreases pieces.len(),
{
    if pieces.len() == 0 {
        Seq::empty()
    } else {
        let rest = param_pairs(pieces.drop_last());
        let last = pieces.last();
        match split_once(last, '=') {
            Some(kv) => if last.len() > 0 { rest.push(kv) } else { rest },
            None => rest,
        }
    }
}

/// The pieces of a text between commas.
fn split_commas(s: &str) -> (r: Vec<String>)
    ensures
        strings_view(r@) == comma_pieces(s@),
{
    let cs = chars_of(s);
    let mut done: Vec<String> = Vec::new();
    let mut cur: Vec<char> = Vec::new();
    let mut i: usize = 0;
    proof {
        assert(cs@.take(0) =~= Seq::<char>::empty());
        assert(strings_view(done@).push(cur@) =~= comma_pieces(cs@.take(0)));
    }
    while i < cs.len()
        invariant
            i <= cs.len(),
            cs@ == s@,
            strings_view(done@).push(cur@) == comma_pieces(cs@.take(i as int)),
        decreases cs.len() - i,
    {
        let c = cs[i];
        let ghost before = strings_view(done@).push(cur@);
        assert(cs@.take(i + 1).drop_last() =~= cs@.take(i as int));
        assert(cs@.take(i + 1).last() == c);
        if c == ',' {
            done.push(string_of(cur.as_slice()));
            cur = Vec::new();
            assert(strings_view(done@).push(cur@) =~= before.push(Seq::<char>::empty()));
        } else {
            cur.push(c);
            assert(strings_view(done@).push(cur@) =~= before.update(before.len() - 1, before.last().push(c)));
        }
        i = i + 1;
    }
    assert(cs@.take(cs.len() as int) =~= cs@);
    done.push(string_of(cur.as_slice()));
    done
}

/// The instance parameters given as `k=v,k2=v2`: each non-empty piece
/// between commas that holds an `=` is a pair, split at its first `=`.
pub fn parse_params(s: &str) -> (r: Vec<(String, String)>)
    ensures
        pairs_view(r@) == param_pairs(comma_pieces(s@)),
{
    let pieces = split_commas(s);
    let ghost ps = comma_pieces(s@);
    let mut r: Vec<(String, String)> = Vec::new();
    for i in 0..pieces.len()
        invariant
            strings_view(pieces@) == ps,
            pairs_view(r@) == param_pairs(ps.take(i as int)),
    {
        assert(ps.take(i + 1).drop_last() =~= ps.take(i as int));
        assert(ps.take(i + 1).last() == pieces@[i as int]@);
        let piece = pieces[i].as_str();
        if chars_of(piece).len() > 0 {
            match split_once_str(piece, '=') {
                Some(kv) => {
                    let ghost before = pairs_view(r@);
                    let ghost kvv = (kv.0@, kv.1@);
                    r.push(kv);
                    assert(pairs_view(r@) =~= before.push(kvv));
                },
                None => {},
            }
        }
    }
    assert(ps.take(pieces.len() as int) =~= ps);
    r
}

// ───────────────────────── JSON replies ─────────────────────────

/// The two texts a SKILL JSON reply is read from: the output without its
/// outer double quotes, and that text with `\"` and `\\` unescaped.
pub open spec fn skill_json_texts_spec(output: Seq<char>) -> (Seq<char>, Seq<char>) {
    let s = trim_char(output, '"');
    (s, replaced(replaced(s, "\\\""@, "\""@), "\\\\"@, "\\"@))
}

/// The texts to try, in order, when reading a SKILL reply as JSON.
pub fn skill_json_texts(output: &str) -> (r: (String, String))
    ensures
        (r.0@, r.1@) == skill_json_texts_spec(output@),
{
    let s = string_of(trim_char_chars(&chars_of(output), '"').as_slice());
    proof {
        reveal_strlit("\\\"");
        reveal_strlit("\\\\");
    }
    let step = replace_all(s.as_str(), "\\\"", "\"");
    let second = replace_all(step.as_str(), "\\\\", "\\");
    (s, second)
}

/// The error for a SKILL reply that is not JSON either way.
pub fn skill_json_error(parse_message: &str, output: &str) -> (e: VirtuosoError)
    ensures
        e matches VirtuosoError::Execution(m) && m@ == "Failed to parse SKILL JSON output: "@ + parse_message@
            + ". Raw: "@ + output@,
{
    let mut m = string_from("Failed to parse SKILL JSON output: ");
    push_str(&mut m, parse_message);
    push_str(&mut m, ". Raw: ");
    push_str(&mut m, output);
    VirtuosoError::Execution(m)
}

/// A JSON value as `serde_json` holds it; the library carries it through
/// without looking inside.
#[verifier::external_type_specification]
#[verifier::external_body]
pub struct ExJsonValue(serde_json::Value);

/// Why `serde_json::from_str` refuses `text` as JSON (the error's message),
/// or `None` when it accepts it.
pub uninterp spec fn json_parse_error(text: Seq<char>) -> Option<Seq<char>>;

/// The value `serde_json::from_str` makes of a text it accepts.
pub uninterp spec fn json_parsed(text: Seq<char>) -> serde_json::Value;

/// `serde_json::from_str::<Value>`: the claim is that it fails exactly when
/// `json_parse_error` names a message, with that message, and otherwise
/// gives `json_parsed` of the text (a function of the text alone).
#[verifier::external_body]
fn parse_json_value(text: &str) -> (r: Result<serde_json::Value, String>)
    ensures
        match json_parse_error(text@) {
            None => r matches Ok(v) && v == json_parsed(text@),
            Some(m) => r matches Err(e) && e@ == m,
        },
{
    serde_json::from_str::<serde_json::Value>(text).map_err(|e| e.to_string())
}

/// Reads a SKILL reply as JSON: the output without its outer quotes, and
/// failing that the same text with `\"` and `\\` unescaped; when neither
/// parses, the second parse's error with the raw output.
pub fn parse_skill_json(output: &str) -> (r: Result<serde_json::Value, VirtuosoError>)
    ensures
        json_parse_error(skill_json_texts_spec(output@).0) is None
            ==> (r matches Ok(v) && v == json_parsed(skill_json_texts_spec(output@).0)),
        json_parse_error(skill_json_texts_spec(output@).0) is Some ==> match json_parse_error(skill_json_texts_spec(output@).1) {
            None => r matches Ok(v) && v == json_parsed(skill_json_texts_spec(output@).1),
            Some(m) => r matches Err(VirtuosoError::Execution(e)) && e@ == "Failed to parse SKILL JSON output: "@ + m
                + ". Raw: "@ + output@,
        },
{
    let (first, second) = skill_json_texts(output);
    match parse_json_value(first.as_str()) {
        Ok(v) => Ok(v),
        Err(_) => match parse_json_value(second.as_str()) {
            Ok(v) => Ok(v),
            Err(m) => Err(skill_json_error(m.as_str(), output)),
        },
    }
}

} // verus!
