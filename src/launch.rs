use vstd::prelude::*;
use vstd::string::StringExecFns;
use crate::config::ServerConfig;
use crate::supervisor::SupervisorError;
use crate::text::{
    contains_text, decimal, decimal_text, ends_with, has_suffix,
    occurs_in, pair_views, split_words, views, whitespace_words,
};

verus! {

/// The text that marks the runtime's agreement as accepted.
pub const EULA_ACCEPTED: &'static str = "eula=true";

/// How a server is launched.
#[derive(PartialEq, Eq, Structural, Clone, Copy, Debug)]
pub enum LaunchStrategy {
    /// Through the bootstrap script found in the server directory.
    Script,
    /// Through a managed runtime (Java or PHP) that runs the executable reference.
    Runtime,
    /// The executable reference itself, as a native binary.
    Native,
}

/// What a look at the server directory found.
pub struct DirFacts {
    pub exists: bool,
    pub has_run_bat: bool,
    pub has_run_sh: bool,
    /// The path of the PHP runtime bundled in the directory (`bin/php`), if there is one.
    pub bundled_php: Option<String>,
    /// The path of the executable reference inside the directory.
    pub native_binary: String,
}

/// A fully resolved command line: program, arguments, environment and working directory.
pub struct LaunchPlan {
    pub strategy: LaunchStrategy,
    pub program: String,
    pub args: Vec<String>,
    pub envs: Vec<(String, String)>,
    pub cwd: String,
}

/// The executable reference names a PHP archive.
pub open spec fn is_php(c: ServerConfig) -> bool {
    has_suffix(c.jar_file@, ".phar"@)
}

/// The executable reference is run by a managed runtime.
pub open spec fn is_managed(c: ServerConfig) -> bool {
    has_suffix(c.jar_file@, ".jar"@) || is_php(c)
}

/// The platform's bootstrap script is in the directory.
pub open spec fn has_script(f: DirFacts, windows: bool) -> bool {
    if windows { f.has_run_bat } else { f.has_run_sh }
}

/// The words of the startup flags.
pub open spec fn flag_words(c: ServerConfig) -> Seq<Seq<char>> {
    match c.startup_flags {
        Some(f) => whitespace_words(f@),
        None => Seq::empty(),
    }
}

pub open spec fn max_heap_flag(ram: u32) -> Seq<char> {
    "-Xmx"@ + decimal(ram as nat) + "M"@
}

pub open spec fn min_heap_flag(ram: u32) -> Seq<char> {
    "-Xms"@ + decimal(ram as nat) + "M"@
}

/// The memory options, as one text.
pub open spec fn memory_options(ram: u32) -> Seq<char> {
    max_heap_flag(ram) + " "@ + min_heap_flag(ram)
}

/// The memory options followed by the startup flags, as one text.
pub open spec fn runtime_options(c: ServerConfig) -> Seq<char> {
    match c.startup_flags {
        Some(f) => memory_options(c.ram) + " "@ + f@,
        None => memory_options(c.ram),
    }
}

/// The runtime binary: the explicit override, else a PHP runtime bundled in
/// the directory, else the generic system binary.
pub open spec fn runtime_program(c: ServerConfig, f: DirFacts) -> Seq<char> {
    match c.java_path {
        Some(p) => p@,
        None => if is_php(c) && f.bundled_php is Some {
            f.bundled_php->Some_0@
        } else if is_php(c) {
            "php"@
        } else {
            "java"@
        },
    }
}

/// The runtime's arguments: memory flags (Java only), the startup flags, then
/// the executable reference and its trailing arguments.
pub open spec fn runtime_args(c: ServerConfig) -> Seq<Seq<char>> {
    if is_php(c) {
        flag_words(c).push(c.jar_file@)
    } else {
        seq![max_heap_flag(c.ram), min_heap_flag(c.ram)] + flag_words(c) + seq![
            "-jar"@,
            c.jar_file@,
            "nogui"@,
        ]
    }
}

/// The strategy chosen for a directory.
pub open spec fn strategy_for(c: ServerConfig, f: DirFacts, windows: bool) -> LaunchStrategy {
    if has_script(f, windows) {
        LaunchStrategy::Script
    } else if is_managed(c) {
        LaunchStrategy::Runtime
    } else {
        LaunchStrategy::Native
    }
}

/// The program of the plan.
pub open spec fn plan_program(c: ServerConfig, f: DirFacts, windows: bool) -> Seq<char> {
    match strategy_for(c, f, windows) {
        LaunchStrategy::Script => if windows { "cmd"@ } else { "bash"@ },
        LaunchStrategy::Runtime => runtime_program(c, f),
        LaunchStrategy::Native => f.native_binary@,
    }
}

/// The arguments of the plan.
pub open spec fn plan_args(c: ServerConfig, f: DirFacts, windows: bool) -> Seq<Seq<char>> {
    match strategy_for(c, f, windows) {
        LaunchStrategy::Script => if windows { seq!["/C"@, "run.bat"@] } else { seq!["run.sh"@] },
        LaunchStrategy::Runtime => runtime_args(c),
        LaunchStrategy::Native => Seq::empty(),
    }
}

/// The environment of the plan: a script gets the memory settings and the
/// startup flags twice, in the two variables that scripts read.
pub open spec fn plan_envs(c: ServerConfig, f: DirFacts, windows: bool) -> Seq<(Seq<char>, Seq<char>)> {
    match strategy_for(c, f, windows) {
        LaunchStrategy::Script => seq![
            ("JVM_ARGS"@, runtime_options(c)),
            ("JAVA_TOOL_OPTIONS"@, runtime_options(c)),
        ],
        _ => Seq::empty(),
    }
}

/// Whether the agreement file must be written before a launch, given its
/// content (`None` when it could not be read).
pub fn eula_needs_write(content: &Option<String>) -> (r: bool)
    ensures
        r == match content {
            Some(t) => !occurs_in(t@, EULA_ACCEPTED@),
            None => true,
        },
{
    match content {
        Some(t) => !contains_text(t.as_str(), EULA_ACCEPTED),
        None => true,
    }
}

/// Appends `words` to `v`.
fn push_all(v: &mut Vec<String>, words: Vec<String>)
    ensures
        views(final(v)@) == views(old(v)@) + views(words@),
{
    let mut i: usize = 0;
    while i < words.len()
        invariant
            i <= words@.len(),
            views(v@) == views(old(v)@) + views(words@).take(i as int),
        decreases words@.len() - i,
    {
        let ghost before = v@;
        v.push(words[i].clone());
        assert(views(v@) =~= views(before).push(words@[i as int]@));
        assert(views(words@).take(i + 1) =~= views(words@).take(i as int).push(words@[i as int]@));
        i = i + 1;
    }
    assert(views(words@).take(words@.len() as int) =~= views(words@));
}

fn heap_flag(prefix: &str, ram: u32) -> (r: String)
    ensures
        r@ == prefix@ + decimal(ram as nat) + "M"@,
{
    let mut s = String::from_str(prefix);
    let d = decimal_text(ram);
    s.append(d.as_str());
    s.append("M");
    s
}

fn runtime_argument_list(c: &ServerConfig) -> (r: Vec<String>)
    ensures
        views(r@) == runtime_args(*c),
{
    let php = ends_with(c.jar_file.as_str(), ".phar");
    let mut args: Vec<String> = Vec::new();
    if !php {
        args.push(heap_flag("-Xmx", c.ram));
        args.push(heap_flag("-Xms", c.ram));
    }
    let ghost head = views(args@);
    match &c.startup_flags {
        Some(f) => push_all(&mut args, split_words(f.as_str())),
        None => {},
    }
    let ghost mid = views(args@);
    assert(mid =~= head + flag_words(*c));
    if php {
        args.push(c.jar_file.clone());
        assert(views(args@) =~= mid.push(c.jar_file@));
        assert(head =~= Seq::<Seq<char>>::empty());
    } else {
        args.push(String::from_str("-jar"));
        args.push(c.jar_file.clone());
        args.push(String::from_str("nogui"));
        assert(views(args@) =~= mid + seq!["-jar"@, c.jar_file@, "nogui"@]);
        assert(head =~= seq![max_heap_flag(c.ram), min_heap_flag(c.ram)]);
    }
    args
}

fn runtime_binary(c: &ServerConfig, facts: &DirFacts) -> (r: String)
    ensures
        r@ == runtime_program(*c, *facts),
{
    match &c.java_path {
        Some(p) => p.clone(),
        None => {
            let php = ends_with(c.jar_file.as_str(), ".phar");
            if php && facts.bundled_php.is_some() {
                match &facts.bundled_php {
                    Some(b) => b.clone(),
                    None => String::from_str("php"),
                }
            } else if php {
                String::from_str("php")
            } else {
                String::from_str("java")
            }
        },
    }
}

fn memory_text(ram: u32) -> (r: String)
    ensures
        r@ == memory_options(ram),
{
    let mut s = heap_flag("-Xmx", ram);
    s.append(" ");
    let m = heap_flag("-Xms", ram);
    s.append(m.as_str());
    s
}

/// The launch of `config`: the strategy that the directory calls for and the
/// command line that goes with it; a missing directory is a configuration error.
pub fn plan_launch(config: &ServerConfig, facts: &DirFacts, windows: bool) -> (r: Result<
    LaunchPlan,
    SupervisorError,
>)
    ensures
        match r {
            Ok(p) => {
                &&& facts.exists
                &&& p.strategy == strategy_for(*config, *facts, windows)
                &&& p.program@ == plan_program(*config, *facts, windows)
                &&& views(p.args@) == plan_args(*config, *facts, windows)
                &&& pair_views(p.envs@) == plan_envs(*config, *facts, windows)
                &&& p.cwd@ == config.path@
            },
            Err(e) => !facts.exists && e is Configuration && e->Configuration_0@
                == "Server directory not found"@,
        },
{
    if !facts.exists {
        return Err(SupervisorError::Configuration(String::from_str("Server directory not found")));
    }
    let script = if windows { facts.has_run_bat } else { facts.has_run_sh };
    if script {
        let mut args: Vec<String> = Vec::new();
        let program = if windows {
            args.push(String::from_str("/C"));
            args.push(String::from_str("run.bat"));
            String::from_str("cmd")
        } else {
            args.push(String::from_str("run.sh"));
            String::from_str("bash")
        };
        let opts = match &config.startup_flags {
            Some(f) => {
                let mut o = memory_text(config.ram);
                o.append(" ");
                o.append(f.as_str());
                o
            },
            None => memory_text(config.ram),
        };
        let mut envs: Vec<(String, String)> = Vec::new();
        envs.push((String::from_str("JVM_ARGS"), opts.clone()));
        envs.push((String::from_str("JAVA_TOOL_OPTIONS"), opts));
        proof {
            if windows {
                assert(views(args@) =~= seq!["/C"@, "run.bat"@]);
            } else {
                assert(views(args@) =~= seq!["run.sh"@]);
            }
            assert(pair_views(envs@) =~= plan_envs(*config, *facts, windows));
        }
        return Ok(LaunchPlan {
            strategy: LaunchStrategy::Script,
            program,
            args,
            envs,
            cwd: config.path.clone(),
        });
    }
    let jar = ends_with(config.jar_file.as_str(), ".jar");
    let phar = ends_with(config.jar_file.as_str(), ".phar");
    if jar || phar {
        let program = runtime_binary(config, facts);
        let args = runtime_argument_list(config);
        let envs: Vec<(String, String)> = Vec::new();
        assert(pair_views(envs@) =~= Seq::<(Seq<char>, Seq<char>)>::empty());
        Ok(LaunchPlan { strategy: LaunchStrategy::Runtime, program, args, envs, cwd: config.path.clone() })
    } else {
        let program = facts.native_binary.clone();
        let args: Vec<String> = Vec::new();
        let envs: Vec<(String, String)> = Vec::new();
        assert(views(args@) =~= Seq::<Seq<char>>::empty());
        assert(pair_views(envs@) =~= Seq::<(Seq<char>, Seq<char>)>::empty());
        Ok(LaunchPlan { strategy: LaunchStrategy::Native, program, args, envs, cwd: config.path.clone() })
    }
}

} // verus!
