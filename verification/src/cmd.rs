//! Console commands: a registry of named command functions, and the
//! arguments of the command being run.

use vstd::prelude::*;
use crate::com::printed;
use crate::console::Channel;
use crate::text::concat;

verus! {

/// A console command: its name, the directory and extension used to
/// complete its argument, and the function that runs it.
#[derive(Debug)]
pub struct CmdFunction<F> {
    name: String,
    auto_complete_dir: String,
    auto_complete_ext: String,
    function: F,
}

/// The mathematical model of a [`CmdFunction`].
pub struct CmdFunctionView<F> {
    pub name: Seq<char>,
    pub auto_complete_dir: Seq<char>,
    pub auto_complete_ext: Seq<char>,
    pub function: F,
}

/// Two commands are equal when they have the same name.
impl<F> PartialEq for CmdFunction<F> {
    fn eq(&self, other: &Self) -> (r: bool) {
        self.name == other.name
    }
}

impl<F> vstd::std_specs::cmp::PartialEqSpecImpl for CmdFunction<F> {
    open spec fn obeys_eq_spec() -> bool {
        true
    }

    open spec fn eq_spec(&self, other: &Self) -> bool {
        self@.name == other@.name
    }
}

impl<F> View for CmdFunction<F> {
    type V = CmdFunctionView<F>;

    closed spec fn view(&self) -> CmdFunctionView<F> {
        CmdFunctionView {
            name: self.name@,
            auto_complete_dir: self.auto_complete_dir@,
            auto_complete_ext: self.auto_complete_ext@,
            function: self.function,
        }
    }
}

impl<F: Copy> CmdFunction<F> {
    /// A command named `name`.
    pub fn new(name: &str, auto_complete_dir: &str, auto_complete_ext: &str, function: F) -> (r: Self)
        ensures
            r@ == (CmdFunctionView {
                name: name@,
                auto_complete_dir: auto_complete_dir@,
                auto_complete_ext: auto_complete_ext@,
                function,
            }),
    {
        CmdFunction {
            name: name.to_owned(),
            auto_complete_dir: auto_complete_dir.to_owned(),
            auto_complete_ext: auto_complete_ext.to_owned(),
            function,
        }
    }

    /// The command's name.
    pub fn name(&self) -> (r: &String)
        ensures
            r@ == self@.name,
    {
        &self.name
    }

    /// The function that runs the command.
    pub fn function(&self) -> (r: F)
        ensures
            r == self@.function,
    {
        self.function
    }

    /// A copy of the command.
    pub fn clone_cmd(&self) -> (r: Self)
        ensures
            r@ == self@,
    {
        CmdFunction {
            name: self.name.clone(),
            auto_complete_dir: self.auto_complete_dir.clone(),
            auto_complete_ext: self.auto_complete_ext.clone(),
            function: self.function,
        }
    }
}

/// Whether no two commands of `s` share a name.
pub open spec fn cmd_names_unique<F>(s: Seq<CmdFunctionView<F>>) -> bool {
    forall|i: int, j: int| 0 <= i < j < s.len() ==> s[i].name != s[j].name
}

/// The commands of `s` by name.
pub open spec fn cmd_map_of<F>(s: Seq<CmdFunctionView<F>>) -> Map<Seq<char>, CmdFunctionView<F>>
    decreases s.len(),
{
    if s.len() == 0 {
        Map::empty()
    } else {
        cmd_map_of(s.drop_last()).insert(s.last().name, s.last())
    }
}

proof fn lemma_cmd_map_of_dom<F>(s: Seq<CmdFunctionView<F>>, n: Seq<char>)
    ensures
        cmd_map_of(s).dom().contains(n) <==> exists|i: int| 0 <= i < s.len() && #[trigger] s[i].name == n,
    decreases s.len(),
{
    if s.len() > 0 {
        lemma_cmd_map_of_dom(s.drop_last(), n);
        if cmd_map_of(s).dom().contains(n) && n != s.last().name {
            let i = choose|i: int| 0 <= i < s.drop_last().len() && #[trigger] s.drop_last()[i].name == n;
            assert(s[i].name == n);
        }
        if exists|i: int| 0 <= i < s.len() && #[trigger] s[i].name == n {
            let i = choose|i: int| 0 <= i < s.len() && #[trigger] s[i].name == n;
            if i < s.len() - 1 {
                assert(s.drop_last()[i].name == n);
            }
        }
    }
}

proof fn lemma_cmd_map_of_index<F>(s: Seq<CmdFunctionView<F>>, i: int)
    requires
        cmd_names_unique(s),
        0 <= i < s.len(),
    ensures
        cmd_map_of(s).dom().contains(s[i].name),
        cmd_map_of(s)[s[i].name] == s[i],
    decreases s.len(),
{
    if i < s.len() - 1 {
        assert(cmd_names_unique(s.drop_last()));
        lemma_cmd_map_of_index(s.drop_last(), i);
        assert(s.drop_last()[i] == s[i]);
        assert(s[i].name != s.last().name);
    }
}

/// The mathematical model of a [`CmdRegistry`]: the commands by name.
pub struct CmdRegistryView<F> {
    pub commands: Map<Seq<char>, CmdFunctionView<F>>,
}

/// All registered commands, by name.
#[derive(Debug)]
pub struct CmdRegistry<F> {
    functions: Vec<CmdFunction<F>>,
}

impl<F> View for CmdRegistry<F> {
    type V = CmdRegistryView<F>;

    closed spec fn view(&self) -> CmdRegistryView<F> {
        CmdRegistryView { commands: cmd_map_of(self.entries()) }
    }
}

impl<F> CmdRegistry<F> {
    spec fn entries(&self) -> Seq<CmdFunctionView<F>> {
        self.functions@.map_values(|c: CmdFunction<F>| c@)
    }
}

impl<F: Copy> CmdRegistry<F> {
    /// Whether no two commands share a name.
    pub closed spec fn wf(&self) -> bool {
        cmd_names_unique(self.entries())
    }

    /// Whether a command named `name` is registered.
    pub open spec fn has(&self, name: Seq<char>) -> bool {
        self@.commands.dom().contains(name)
    }

    /// An empty registry.
    pub fn new() -> (r: Self)
        ensures
            r.wf(),
            r@.commands == Map::<Seq<char>, CmdFunctionView<F>>::empty(),
    {
        let r = CmdRegistry { functions: Vec::new() };
        assert(r.entries() =~= Seq::<CmdFunctionView<F>>::empty());
        r
    }

    fn find_index(&self, name: &str) -> (r: Option<usize>)
        requires
            self.wf(),
        ensures
            match r {
                Some(i) => i < self.functions@.len() && self.has(name@) && self@.commands[name@]
                    == self.functions@[i as int]@,
                None => !self.has(name@),
            },
    {
        let key = name.to_owned();
        let mut i: usize = 0;
        while i < self.functions.len()
            invariant
                0 <= i <= self.functions@.len(),
                key@ == name@,
                self.wf(),
                forall|j: int| 0 <= j < i ==> self.functions@[j]@.name != name@,
            decreases self.functions@.len() - i,
        {
            if self.functions[i].name == key {
                proof {
                    assert(self.entries()[i as int] == self.functions@[i as int]@);
                    lemma_cmd_map_of_index(self.entries(), i as int);
                }
                return Some(i);
            }
            i = i + 1;
        }
        proof {
            lemma_cmd_map_of_dom(self.entries(), name@);
            if self.has(name@) {
                let j = choose|j: int|
                    0 <= j < self.entries().len() && #[trigger] self.entries()[j].name == name@;
                assert(self.entries()[j] == self.functions@[j]@);
            }
        }
        None
    }
}

/// A copy of the command named `name`, if there is one.
pub fn find<F: Copy>(cmds: &CmdRegistry<F>, name: &str) -> (r: Option<CmdFunction<F>>)
    requires
        cmds.wf(),
    ensures
        match r {
            Some(c) => cmds.has(name@) && c@ == cmds@.commands[name@],
            None => !cmds.has(name@),
        },
{
    match cmds.find_index(name) {
        Some(i) => Some(cmds.functions[i].clone_cmd()),
        None => None,
    }
}

/// Whether a command named `name` is registered.
pub fn cmd_exists<F: Copy>(cmds: &CmdRegistry<F>, name: &str) -> (r: bool)
    requires
        cmds.wf(),
    ensures
        r == cmds.has(name@),
{
    cmds.find_index(name).is_some()
}

/// The command `name` running `function`, with no completion.
pub open spec fn command_entry<F>(name: Seq<char>, function: F) -> CmdFunctionView<F> {
    CmdFunctionView {
        name,
        auto_complete_dir: Seq::<char>::empty(),
        auto_complete_ext: Seq::<char>::empty(),
        function,
    }
}

/// The registry `cmds` with `function` registered as the command `name`.
pub open spec fn after_add<F>(cmds: CmdRegistryView<F>, name: Seq<char>, function: F) -> CmdRegistryView<F> {
    CmdRegistryView { commands: cmds.commands.insert(name, command_entry(name, function)) }
}

/// A command registered under a free name is found under that name, runs
/// the function it was registered with and has no completion; every other
/// name finds what it found before.
pub proof fn law_add_then_find<F>(cmds: CmdRegistryView<F>, name: Seq<char>, other: Seq<char>, function: F)
    requires
        !cmds.commands.dom().contains(name),
    ensures
        after_add(cmds, name, function).commands.dom().contains(name),
        after_add(cmds, name, function).commands[name] == command_entry(name, function),
        other != name ==> (after_add(cmds, name, function).commands.dom().contains(other)
            <==> cmds.commands.dom().contains(other)),
        other != name && cmds.commands.dom().contains(other) ==> after_add(cmds, name, function).commands[other]
            == cmds.commands[other],
{
}

/// Registers `function` as the command `name`, with no completion; when
/// the name is taken, nothing changes and `None` is returned.
pub fn add_internal<F: Copy>(cmds: &mut CmdRegistry<F>, name: &str, function: F) -> (r: Option<CmdFunction<F>>)
    requires
        old(cmds).wf(),
    ensures
        final(cmds).wf(),
        old(cmds).has(name@) ==> r is None && final(cmds)@ == old(cmds)@,
        !old(cmds).has(name@) ==> {
            &&& r is Some
            &&& r->0@ == command_entry(name@, function)
            &&& final(cmds)@ == after_add(old(cmds)@, name@, function)
        },
{
    if cmd_exists(cmds, name) {
        return None;
    }
    let c = CmdFunction::new(name, "", "", function);
    let copy = c.clone_cmd();
    let ghost before = cmds.entries();
    cmds.functions.push(c);
    proof {
        reveal_strlit("");
        assert(cmds.entries() =~= before.push(copy@));
        assert(cmds.entries().drop_last() =~= before);
        assert(""@ =~= Seq::<char>::empty());
        assert(copy@.auto_complete_dir == Seq::<char>::empty());
        assert(cmd_map_of(cmds.entries()) == cmd_map_of(before).insert(name@, copy@));
        lemma_cmd_map_of_dom(before, name@);
        assert forall|a: int, b: int| 0 <= a < b < cmds.entries().len() implies cmds.entries()[a].name
            != cmds.entries()[b].name by {
            if b == before.len() {
                assert(before[a].name == cmds.entries()[a].name);
            }
        }
    }
    Some(copy)
}

/// The line printed, on channel 16, when a command is registered under a
/// name that is taken.
pub fn add_internal_refusal(name: &str) -> (r: String)
    ensures
        printed(Channel(16), "cmd::add_internal: "@ + name@ + " is already defined"@ + "\n"@) == Some(r@),
{
    let a = concat("cmd::add_internal: ", name);
    let b = concat(a.as_str(), " is already defined");
    proof {
        assert(printed(Channel(16), b@ + "\n"@) is Some);
    }
    match crate::com::println(Channel::new(16), b.as_str()) {
        Some(line) => line,
        None => String::new(),
    }
}

/// A vector of fixed capacity, from `arrayvec`.
#[verifier::external_type_specification]
#[verifier::external_body]
#[verifier::reject_recursive_types(T)]
pub struct ExArrayVec<T, const CAP: usize>(arrayvec::ArrayVec<T, CAP>);

/// The argument lists an `ArrayVec` of them holds, one per nesting level,
/// each argument by its characters.
pub uninterp spec fn arg_levels(v: arrayvec::ArrayVec<Vec<String>, 8>) -> Seq<Seq<Seq<char>>>;

/// Calls `ArrayVec::new`: a vector holding no argument list.
#[verifier::external_body]
fn new_arg_levels() -> (r: arrayvec::ArrayVec<Vec<String>, 8>)
    ensures
        arg_levels(r).len() == 0,
{
    arrayvec::ArrayVec::new()
}

/// Calls `ArrayVec::new` for a pool that the command system keeps and
/// reads nothing from.
#[verifier::external_body]
fn new_pool<T, const CAP: usize>() -> (r: arrayvec::ArrayVec<T, CAP>)
    requires
        CAP <= u32::MAX,
{
    arrayvec::ArrayVec::new()
}

/// Calls `ArrayVec::push`, which appends `level` (it panics when the vector
/// is full, so it may not be).
#[verifier::external_body]
fn push_arg_level(v: &mut arrayvec::ArrayVec<Vec<String>, 8>, level: Vec<String>)
    requires
        arg_levels(*old(v)).len() < 8,
    ensures
        arg_levels(*final(v)) == arg_levels(*old(v)).push(level@.map_values(|s: String| s@)),
{
    v.push(level)
}

/// Reads argument `idx` of the list of nesting level `level`, through the
/// slice an `ArrayVec` dereferences to, as a new string.
#[verifier::external_body]
fn arg_at(v: &arrayvec::ArrayVec<Vec<String>, 8>, level: usize, idx: usize) -> (r: String)
    requires
        level < arg_levels(*v).len(),
        idx < arg_levels(*v)[level as int].len(),
    ensures
        r@ == arg_levels(*v)[level as int][idx as int],
{
    v[level][idx].clone()
}

/// The arguments of the command being run, for each nesting level of
/// command execution, and the pools their text comes from.
pub struct CmdArgs {
    pub nesting: usize,
    pub local_client_num: [i32; 8],
    pub controller_index: [i32; 8],
    pub argshift: [i32; 8],
    pub argc: [usize; 8],
    pub argv: arrayvec::ArrayVec<Vec<String>, 8>,
    pub text_pool: arrayvec::ArrayVec<char, 8192>,
    pub argv_pool: arrayvec::ArrayVec<String, 512>,
    pub used_text_pool: [i32; 8],
    pub total_used_argv_pool: i32,
    pub total_used_text_pool: i32,
}

impl CmdArgs {
    /// Whether the argument count of the current nesting level can be read,
    /// and each counted argument is held.
    pub open spec fn wf(&self) -> bool {
        &&& self.nesting < 8
        &&& self.argc[self.nesting as int] > 0 ==> self.nesting < arg_levels(self.argv).len()
            && self.argc[self.nesting as int] <= arg_levels(self.argv)[self.nesting as int].len()
    }

    /// The number of arguments at the current nesting level.
    pub open spec fn count(&self) -> nat {
        self.argc[self.nesting as int] as nat
    }

    /// The `i`-th argument at the current nesting level; empty past the
    /// last.
    pub open spec fn arg(&self, i: int) -> Seq<char> {
        if 0 <= i < self.count() {
            arg_levels(self.argv)[self.nesting as int][i]
        } else {
            Seq::empty()
        }
    }

    /// No arguments at all.
    pub fn new() -> (r: Self)
        ensures
            r.wf(),
            r.nesting == 0,
            r.count() == 0,
            r.zeroed(),
            arg_levels(r.argv).len() == 0,
    {
        CmdArgs {
            nesting: 0,
            local_client_num: [0;8],
            controller_index: [0;8],
            argshift: [0;8],
            argc: [0;8],
            argv: new_arg_levels(),
            text_pool: new_pool(),
            argv_pool: new_pool(),
            used_text_pool: [0;8],
            total_used_argv_pool: 0,
            total_used_text_pool: 0,
        }
    }

    /// Whether every counter, index and argument count is zero, save the
    /// count of the outermost level.
    pub open spec fn zeroed(&self) -> bool {
        &&& forall|i: int| 0 <= i < 8 ==> #[trigger] self.local_client_num[i] == 0 && self.controller_index[i] == 0
            && self.argshift[i] == 0 && self.used_text_pool[i] == 0
        &&& forall|i: int| 1 <= i < 8 ==> #[trigger] self.argc[i] == 0
        &&& self.total_used_argv_pool == 0
        &&& self.total_used_text_pool == 0
    }

    /// The arguments `tokens` at the outermost nesting level.
    pub fn with_args(tokens: Vec<String>) -> (r: Self)
        ensures
            r.wf(),
            r.nesting == 0,
            r.count() == tokens@.len(),
            forall|i: int| 0 <= i < tokens@.len() ==> r.arg(i) == tokens@[i]@,
            r.zeroed(),
            arg_levels(r.argv).len() == 1,
    {
        let n = tokens.len();
        let mut argc = [0usize;8];
        argc[0] = n;
        let ghost tv = tokens@.map_values(|s: String| s@);
        let mut argv = new_arg_levels();
        push_arg_level(&mut argv, tokens);
        assert(arg_levels(argv)[0] == tv);
        CmdArgs {
            nesting: 0,
            local_client_num: [0;8],
            controller_index: [0;8],
            argshift: [0;8],
            argc,
            argv,
            text_pool: new_pool(),
            argv_pool: new_pool(),
            used_text_pool: [0;8],
            total_used_argv_pool: 0,
            total_used_text_pool: 0,
        }
    }
}

/// The number of arguments of the command being run.
pub fn argc(args: &CmdArgs) -> (r: usize)
    requires
        args.wf(),
    ensures
        r == args.count(),
{
    args.argc[args.nesting]
}

/// The `idx`-th argument of the command being run; empty past the last.
pub fn argv(args: &CmdArgs, idx: usize) -> (r: String)
    requires
        args.wf(),
    ensures
        r@ == args.arg(idx as int),
{
    if idx >= argc(args) {
        return String::new();
    }
    arg_at(&args.argv, args.nesting, idx)
}

} // verus!
