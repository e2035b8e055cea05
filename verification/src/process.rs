//! How a process of the application starts: its command line, its role and its settings.
use vstd::prelude::*;

verus! {

/// Attributes of the runtime that only this runtime has.
#[derive(Debug, PartialEq, Eq)]
pub enum RuntimeInitAttribute {
    /// Arguments for the command line of the browser engine, each with its value if it has one.
    CommandLineArgs { args: Vec<(String, Option<String>)> },
}

/// A change of the command line of the browser engine.
#[derive(Debug, PartialEq, Eq)]
pub enum CommandLineChange {
    AppendSwitchWithValue(String, String),
    AppendSwitch(String),
    AppendArgument(String),
}

/// The arguments of all attributes, in order.
pub open spec fn all_args(attributes: Seq<RuntimeInitAttribute>) -> Seq<(String, Option<String>)>
    decreases attributes.len(),
{
    if attributes.len() == 0 {
        Seq::empty()
    } else {
        let RuntimeInitAttribute::CommandLineArgs { args } = attributes.last();
        all_args(attributes.drop_last()) + args@
    }
}

fn duplicate_arg(arg: &(String, Option<String>)) -> (copy: (String, Option<String>))
    ensures
        copy == *arg,
{
    let value = match &arg.1 {
        Some(value) => Some(value.clone()),
        None => None,
    };
    (arg.0.clone(), value)
}

/// The arguments of all attributes, in order.
pub fn command_line_args(attributes: &Vec<RuntimeInitAttribute>) -> (all: Vec<
    (String, Option<String>),
>)
    ensures
        all@ == all_args(attributes@),
{
    let mut all: Vec<(String, Option<String>)> = Vec::new();
    let mut index: usize = 0;
    assert(attributes@.take(0) =~= Seq::empty());
    while index < attributes.len()
        invariant
            index <= attributes.len(),
            all@ == all_args(attributes@.take(index as int)),
        decreases attributes.len() - index,
    {
        let RuntimeInitAttribute::CommandLineArgs { args } = &attributes[index];
        let ghost before = all@;
        let mut position: usize = 0;
        while position < args.len()
            invariant
                position <= args.len(),
                all@ == before + args@.take(position as int),
            decreases args.len() - position,
        {
            all.push(duplicate_arg(&args[position]));
            position = position + 1;
            assert(all@ =~= before + args@.take(position as int));
        }
        proof {
            let next = attributes@.take(index + 1);
            assert(next.drop_last() =~= attributes@.take(index as int));
            assert(args@.take(position as int) =~= args@);
        }
        index = index + 1;
    }
    assert(attributes@.take(index as int) =~= attributes@);
    all
}

/// The change that an argument comes to: a switch where it has a value or starts with a dash,
/// and otherwise a plain argument.
pub open spec fn change_of(arg: (String, Option<String>)) -> CommandLineChange {
    match arg.1 {
        Some(value) => CommandLineChange::AppendSwitchWithValue(arg.0, value),
        None => if arg.0@.len() > 0 && arg.0@[0] == '-' {
            CommandLineChange::AppendSwitch(arg.0)
        } else {
            CommandLineChange::AppendArgument(arg.0)
        },
    }
}

/// The changes of the command line before the browser engine reads it: one for each argument,
/// in order.
pub fn on_before_command_line_processing(args: &Vec<(String, Option<String>)>) -> (changes: Vec<
    CommandLineChange,
>)
    ensures
        changes@ == args@.map_values(|arg: (String, Option<String>)| change_of(arg)),
{
    let mut changes: Vec<CommandLineChange> = Vec::new();
    let mut index: usize = 0;
    while index < args.len()
        invariant
            index <= args.len(),
            changes@.len() == index,
            forall|before: int|
                0 <= before < index ==> #[trigger] changes@[before] == change_of(args@[before]),
        decreases args.len() - index,
    {
        let (arg, value) = duplicate_arg(&args[index]);
        let change = match value {
            Some(value) => CommandLineChange::AppendSwitchWithValue(arg, value),
            None => if arg.as_str().unicode_len() > 0 && arg.as_str().get_char(0) == '-' {
                CommandLineChange::AppendSwitch(arg)
            } else {
                CommandLineChange::AppendArgument(arg)
            },
        };
        changes.push(change);
        index = index + 1;
    }
    assert(changes@ =~= args@.map_values(|arg: (String, Option<String>)| change_of(arg)));
    changes
}

/// What a process is for.
#[derive(Debug, Clone, Copy, PartialEq, Eq, Structural)]
pub enum ProcessRole {
    /// The process of the application itself.
    Browser,
    /// A process that the browser engine started, and which has done its work.
    Helper,
}

/// Whether the browser engine ran the process as its command line says: it leaves the process
/// of the application alone, and runs any other to its end.
pub open spec fn ran_as_told(has_type_switch: i32, exit_code: i32) -> bool {
    if has_type_switch == 1 {
        exit_code >= 0
    } else {
        exit_code == -1
    }
}

/// The role of a process, by whether its command line has the switch that names a type.
///
/// `exit_code` is what the browser engine made of the process.
pub fn process_role(has_type_switch: i32, exit_code: i32) -> (role: ProcessRole)
    requires
        ran_as_told(has_type_switch, exit_code),
    ensures
        role == (if has_type_switch == 1 {
            ProcessRole::Helper
        } else {
            ProcessRole::Browser
        }),
{
    if has_type_switch != 1 {
        ProcessRole::Browser
    } else {
        ProcessRole::Helper
    }
}

/// The directory that the data of all applications is kept in: the user's cache directory, or
/// else the one for temporary files.
pub fn cache_base<P>(user_cache: Option<P>, temporary: P) -> (base: P)
    ensures
        base == (match user_cache {
            Some(user_cache) => user_cache,
            None => temporary,
        }),
{
    match user_cache {
        Some(user_cache) => user_cache,
        None => temporary,
    }
}

/// The names that lead from there to the directory for the data of an application, in order:
/// its identifier, and then `cef`.
pub fn cache_directory_names(identifier: String) -> (names: Vec<String>)
    ensures
        names@.len() == 2,
        names@[0] == identifier,
        names@[1]@ == "cef"@,
{
    let mut names: Vec<String> = Vec::new();
    names.push(identifier);
    names.push("cef".to_owned());
    names
}

/// Whether the browser engine started, by what initializing it gave.
pub fn engine_started(initialized: i32) -> (started: bool)
    ensures
        started == (initialized == 1),
{
    initialized == 1
}

/// The settings that the browser engine starts with.
#[derive(Debug, PartialEq, Eq)]
pub struct Settings {
    pub no_sandbox: i32,
    pub cache_path: String,
    pub external_message_pump: i32,
}

/// The settings for a process: the application drives the message loop, and the sandbox is on
/// only where the application was built with it.
pub fn settings(sandbox: bool, cache_path: String) -> (settings: Settings)
    ensures
        settings.no_sandbox == (if sandbox {
            0int
        } else {
            1int
        }),
        settings.cache_path == cache_path,
        settings.external_message_pump == 1,
{
    Settings {
        no_sandbox: if sandbox {
            0
        } else {
            1
        },
        cache_path,
        external_message_pump: 1,
    }
}

/// Whether a text ends with another.
pub open spec fn is_suffix(text: Seq<char>, suffix: Seq<char>) -> bool {
    &&& suffix.len() <= text.len()
    &&& text.subrange(text.len() - suffix.len(), text.len() as int) == suffix
}

fn ends_with(text: &str, suffix: &str) -> (ends: bool)
    ensures
        ends == is_suffix(text@, suffix@),
{
    let length: usize = text.unicode_len();
    let tail: usize = suffix.unicode_len();
    if tail > length {
        return false;
    }
    text.substring_char(length - tail, length).to_owned() == suffix.to_owned()
}

/// Whether the name is that of a process that the browser engine starts on macOS.
pub open spec fn is_helper_name(name: Seq<char>) -> bool {
    ||| is_suffix(name, " Helper (GPU)"@)
    ||| is_suffix(name, " Helper (Renderer)"@)
    ||| is_suffix(name, " Helper (Plugin)"@)
    ||| is_suffix(name, " Helper (Alerts)"@)
    ||| is_suffix(name, " Helper"@)
}

/// Whether an executable, by the name of its file, is one that the browser engine starts on
/// macOS. One without a name is not.
pub fn is_cef_helper_process(file_name: Option<&str>) -> (helper: bool)
    ensures
        helper == (file_name is Some && is_helper_name(file_name->0@)),
{
    match file_name {
        Some(name) => {
            ends_with(name, " Helper (GPU)") || ends_with(name, " Helper (Renderer)") || ends_with(
                name,
                " Helper (Plugin)",
            ) || ends_with(name, " Helper (Alerts)") || ends_with(name, " Helper")
        },
        None => false,
    }
}

} // verus!
