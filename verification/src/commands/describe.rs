//! Describing the command tree as JSON, for programs that drive the
//! command line: each command's description, and its arguments or its
//! subcommands, these by name in ascending order.
use vstd::prelude::*;

use crate::json::{lemma_member_trees_ext, lemma_trees_push, member_trees, tree, trees, JsonTree, JsonValue};
use crate::json_map::{insert_member, insert_sorted, keys_sorted, lemma_insert_keeps_sorted, lemma_insert_values, member_value};
use crate::text::{join, join_strings, push_char, same_text, texts};

verus! {

/// What the description of a command needs to know of one argument.
#[derive(Debug)]
pub struct ArgInfo {
    /// The argument's id.
    pub id: String,
    /// Its long flag, without the dashes.
    pub long: Option<String>,
    /// Its short flag, without the dash.
    pub short: Option<char>,
    /// The most values it takes, where that is set.
    pub max_values: Option<usize>,
    /// Whether it must be given.
    pub required: bool,
    /// Its default values.
    pub default_values: Vec<String>,
    /// The environment variable it is read from, if any.
    pub env: Option<String>,
    /// Its help text.
    pub help: Option<String>,
    /// Whether it applies to all subcommands.
    pub global: bool,
}

/// What the description of a command needs to know of it.
#[derive(Debug)]
pub struct CommandInfo {
    pub name: String,
    /// Its one-line description.
    pub about: Option<String>,
    pub args: Vec<ArgInfo>,
    pub subcommands: Vec<CommandInfo>,
}

/// An optional text as JSON: the text, or null.
pub open spec fn opt_tree(o: Option<String>) -> JsonTree {
    match o {
        Some(s) => JsonTree::Str(s@),
        None => JsonTree::Null,
    }
}

/// The name under which an argument is shown: `--long`, else `-s`, else
/// its id.
pub open spec fn arg_name(a: ArgInfo) -> Seq<char> {
    match a.long {
        Some(l) => "--"@ + l@,
        None => match a.short {
            Some(c) => seq!['-', c],
            None => a.id@,
        },
    }
}

/// The type shown for an argument: `bool` for one that takes no value,
/// else `string`.
pub open spec fn arg_type(a: ArgInfo) -> Seq<char> {
    if a.max_values == Some(0usize) {
        "bool"@
    } else {
        "string"@
    }
}

/// The members of an argument's description, by name in ascending order:
/// its default and environment variable only where it has them.
pub open spec fn arg_members(a: ArgInfo) -> Seq<(Seq<char>, JsonTree)> {
    let default_member = if a.default_values@.len() > 0 {
        seq![("default"@, JsonTree::Str(a.default_values@[0]@))]
    } else {
        Seq::empty()
    };
    let env_member = match a.env {
        Some(e) => seq![("env"@, JsonTree::Str(e@))],
        None => Seq::empty(),
    };
    default_member + seq![("description"@, opt_tree(a.help))] + env_member + seq![
        ("name"@, JsonTree::Str(arg_name(a))),
        ("required"@, JsonTree::Bool(a.required)),
        ("type"@, JsonTree::Str(arg_type(a))),
    ]
}

/// The description of an argument.
pub open spec fn arg_tree(a: ArgInfo) -> JsonTree {
    JsonTree::Object(arg_members(a))
}

/// Whether an argument is `help` or `version`, which are never shown.
pub open spec fn is_builtin_arg(a: ArgInfo) -> bool {
    a.id@ == "help"@ || a.id@ == "version"@
}

/// Whether an argument is shown among the global flags: a global one with
/// a long flag.
pub open spec fn shown_global(a: ArgInfo) -> bool {
    !is_builtin_arg(a) && a.long is Some && a.global
}

/// Whether an argument is shown with its command: a non-global one.
pub open spec fn shown_local(a: ArgInfo) -> bool {
    !is_builtin_arg(a) && !a.global
}

/// The descriptions of the global flags among some arguments, in order.
pub open spec fn global_args(s: Seq<ArgInfo>) -> Seq<JsonTree>
    decreases s.len(),
{
    if s.len() == 0 {
        Seq::empty()
    } else if shown_global(s.last()) {
        global_args(s.drop_last()).push(arg_tree(s.last()))
    } else {
        global_args(s.drop_last())
    }
}

/// The descriptions of a command's own arguments, in order.
pub open spec fn local_args(s: Seq<ArgInfo>) -> Seq<JsonTree>
    decreases s.len(),
{
    if s.len() == 0 {
        Seq::empty()
    } else if shown_local(s.last()) {
        local_args(s.drop_last()).push(arg_tree(s.last()))
    } else {
        local_args(s.drop_last())
    }
}

/// Whether a command has a subcommand other than `help`.
pub open spec fn has_shown_subs(s: Seq<CommandInfo>) -> bool {
    exists|i: int| 0 <= i < s.len() && s[i].name@ != "help"@
}

/// The description of a command: with its subcommands if it has any
/// (but `help`), else with its own arguments.
pub open spec fn command_tree(c: CommandInfo) -> JsonTree
    decreases c,
{
    if has_shown_subs(c.subcommands@) {
        JsonTree::Object(seq![
            ("description"@, opt_tree(c.about)),
            ("subcommands"@, JsonTree::Object(sub_map(c.subcommands@))),
        ])
    } else {
        JsonTree::Object(seq![
            ("args"@, JsonTree::Array(local_args(c.args@))),
            ("description"@, opt_tree(c.about)),
        ])
    }
}

/// The descriptions of subcommands (but `help`) by name, a later one
/// taking the place of an earlier one of the same name.
pub open spec fn sub_map(s: Seq<CommandInfo>) -> Seq<(Seq<char>, JsonTree)>
    decreases s,
{
    if s.len() == 0 {
        Seq::empty()
    } else if s.last().name@ == "help"@ {
        sub_map(s.drop_last())
    } else {
        insert_sorted(sub_map(s.drop_last()), s.last().name@, command_tree(s.last()))
    }
}

/// The description of the whole program.
pub open spec fn full_tree(root: CommandInfo) -> JsonTree {
    JsonTree::Object(seq![
        ("commands"@, JsonTree::Object(sub_map(root.subcommands@))),
        ("description"@, opt_tree(root.about)),
        ("global_flags"@, JsonTree::Array(global_args(root.args@))),
        ("name"@, JsonTree::Str(root.name@)),
    ])
}

/// The first subcommand named `name`.
pub open spec fn find_sub(s: Seq<CommandInfo>, name: Seq<char>) -> Option<CommandInfo>
    decreases s.len(),
{
    if s.len() == 0 {
        None
    } else if s[0].name@ == name {
        Some(s[0])
    } else {
        find_sub(s.drop_first(), name)
    }
}

/// The command reached from `c` by following subcommand names.
pub open spec fn walk(c: CommandInfo, path: Seq<Seq<char>>) -> Option<CommandInfo>
    decreases path.len(),
{
    if path.len() == 0 {
        Some(c)
    } else {
        match find_sub(c.subcommands@, path[0]) {
            None => None,
            Some(sub) => walk(sub, path.drop_first()),
        }
    }
}

/// What `describe` shows for a path of command names: the whole program
/// for none, else the command at the path, else an error naming the path.
pub open spec fn describe_tree(root: CommandInfo, path: Seq<Seq<char>>) -> JsonTree {
    if path.len() == 0 {
        full_tree(root)
    } else {
        match walk(root, path) {
            Some(c) => command_tree(c),
            None => JsonTree::Object(seq![
                ("error"@, JsonTree::Str("Unknown command: "@ + join(path, " "@))),
            ]),
        }
    }
}

/// An optional text as JSON: the text, or null.
fn opt_json(o: &Option<String>) -> (r: JsonValue)
    ensures
        tree(r) == opt_tree(*o),
{
    match o {
        Some(s) => JsonValue::String(s.clone()),
        None => JsonValue::Null,
    }
}

/// A member with a literal name.
fn member(name: &str, v: JsonValue) -> (r: (String, JsonValue))
    ensures
        r.0@ == name@,
        r.1 == v,
{
    (String::from_str(name), v)
}

/// Whether an argument is `help` or `version`.
fn is_builtin(a: &ArgInfo) -> (r: bool)
    ensures
        r == is_builtin_arg(*a),
{
    same_text(a.id.as_str(), "help") || same_text(a.id.as_str(), "version")
}

/// The name under which an argument is shown.
fn arg_display_name(a: &ArgInfo) -> (r: String)
    ensures
        r@ == arg_name(*a),
{
    match &a.long {
        Some(l) => {
            let mut n = String::from_str("--");
            n.append(l.as_str());
            n
        },
        None => match a.short {
            Some(c) => {
                let mut n = String::from_str("-");
                push_char(&mut n, c);
                proof {
                    reveal_strlit("-");
                    assert(n@ =~= seq!['-', c]);
                }
                n
            },
            None => a.id.clone(),
        },
    }
}

/// The description of an argument: name, type, whether it is required,
/// its help text, and its default and environment variable where it has
/// them; members by name in ascending order.
pub fn describe_arg(a: &ArgInfo) -> (r: JsonValue)
    ensures
        tree(r) == arg_tree(*a),
{
    let mut members: Vec<(String, JsonValue)> = Vec::new();
    if a.default_values.len() > 0 {
        members.push(member("default", JsonValue::String(a.default_values[0].clone())));
    }
    let ghost head = members@;
    members.push(member("description", opt_json(&a.help)));
    match &a.env {
        Some(e) => members.push(member("env", JsonValue::String(e.clone()))),
        None => {},
    }
    let ghost mid = members@;
    members.push(member("name", JsonValue::String(arg_display_name(a))));
    members.push(member("required", JsonValue::Bool(a.required)));
    let no_value = match a.max_values {
        Some(n) => n == 0,
        None => false,
    };
    let shown_type = if no_value { String::from_str("bool") } else { String::from_str("string") };
    members.push(member("type", JsonValue::String(shown_type)));
    proof {
        let expected = arg_members(*a);
        assert forall|j: int| 0 <= j < members@.len() implies #[trigger] expected[j] == (members@[j].0@, tree(members@[j].1)) by {
        }
        lemma_member_trees_ext(members@, expected);
    }
    JsonValue::Object(members)
}

/// The descriptions of the global flags (with `global`) or of a command's
/// own arguments (without), in order.
fn shown_args(args: &Vec<ArgInfo>, global: bool) -> (r: Vec<JsonValue>)
    ensures
        trees(r@) == if global { global_args(args@) } else { local_args(args@) },
{
    let mut out: Vec<JsonValue> = Vec::new();
    let mut i: usize = 0;
    while i < args.len()
        invariant
            i <= args.len(),
            trees(out@) == if global { global_args(args@.take(i as int)) } else { local_args(args@.take(i as int)) },
        decreases args.len() - i,
    {
        let a = &args[i];
        proof {
            assert(args@.take(i + 1).drop_last() =~= args@.take(i as int));
            assert(args@.take(i + 1).last() == *a);
        }
        let shown = if global {
            !is_builtin(a) && a.long.is_some() && a.global
        } else {
            !is_builtin(a) && !a.global
        };
        if shown {
            let ghost before = out@;
            let d = describe_arg(a);
            out.push(d);
            proof {
                lemma_trees_push(before, d);
            }
        }
        i = i + 1;
    }
    proof {
        assert(args@.take(args.len() as int) =~= args@);
    }
    out
}

/// The description of a command: with its subcommands by name if it has
/// any (but `help`), else with its own arguments.
pub fn describe_command(cmd: &CommandInfo) -> (r: JsonValue)
    ensures
        tree(r) == command_tree(*cmd),
    decreases cmd,
{
    let mut has_subs = false;
    let mut i: usize = 0;
    while i < cmd.subcommands.len()
        invariant
            i <= cmd.subcommands.len(),
            has_subs == exists|j: int| 0 <= j < i && cmd.subcommands@[j].name@ != "help"@,
        decreases cmd.subcommands.len() - i,
    {
        if !same_text(cmd.subcommands[i].name.as_str(), "help") {
            has_subs = true;
        }
        i = i + 1;
    }
    let mut members: Vec<(String, JsonValue)> = Vec::new();
    if has_subs {
        proof {
            assert(decreases_to!(*cmd => cmd.subcommands));
        }
        let subs = subcommand_map(&cmd.subcommands);
        members.push(member("description", opt_json(&cmd.about)));
        members.push(member("subcommands", JsonValue::Object(subs)));
        proof {
            let expected = seq![
                ("description"@, opt_tree(cmd.about)),
                ("subcommands"@, JsonTree::Object(sub_map(cmd.subcommands@))),
            ];
            assert forall|j: int| 0 <= j < members@.len() implies #[trigger] expected[j] == (members@[j].0@, tree(members@[j].1)) by {
            }
            lemma_member_trees_ext(members@, expected);
        }
    } else {
        let args = shown_args(&cmd.args, false);
        members.push(member("args", JsonValue::Array(args)));
        members.push(member("description", opt_json(&cmd.about)));
        proof {
            let expected = seq![
                ("args"@, JsonTree::Array(local_args(cmd.args@))),
                ("description"@, opt_tree(cmd.about)),
            ];
            assert forall|j: int| 0 <= j < members@.len() implies #[trigger] expected[j] == (members@[j].0@, tree(members@[j].1)) by {
            }
            lemma_member_trees_ext(members@, expected);
        }
    }
    JsonValue::Object(members)
}

/// The descriptions of subcommands (but `help`) by name in ascending
/// order; of two of the same name, the later one.
fn subcommand_map(subs: &Vec<CommandInfo>) -> (r: Vec<(String, JsonValue)>)
    ensures
        member_trees(r@) == sub_map(subs@),
    decreases subs,
{
    let mut m: Vec<(String, JsonValue)> = Vec::new();
    let mut i: usize = 0;
    while i < subs.len()
        invariant
            i <= subs.len(),
            member_trees(m@) == sub_map(subs@.take(i as int)),
        decreases subs.len() - i,
    {
        let sub = &subs[i];
        proof {
            assert(subs@.take(i + 1).drop_last() =~= subs@.take(i as int));
            assert(subs@.take(i + 1).last() == *sub);
        }
        if !same_text(sub.name.as_str(), "help") {
            proof {
                assert(decreases_to!(*subs => subs@));
                assert(decreases_to!(subs@ => subs@[i as int]));
            }
            let d = describe_command(sub);
            insert_member(&mut m, sub.name.clone(), d);
        }
        i = i + 1;
    }
    proof {
        assert(subs@.take(subs.len() as int) =~= subs@);
    }
    m
}

/// The description of the whole program: its name and description, its
/// global flags and its commands.
pub fn describe_full(root: &CommandInfo) -> (r: JsonValue)
    ensures
        tree(r) == full_tree(*root),
{
    let mut members: Vec<(String, JsonValue)> = Vec::new();
    members.push(member("commands", JsonValue::Object(subcommand_map(&root.subcommands))));
    members.push(member("description", opt_json(&root.about)));
    members.push(member("global_flags", JsonValue::Array(shown_args(&root.args, true))));
    members.push(member("name", JsonValue::String(root.name.clone())));
    proof {
        let expected = seq![
            ("commands"@, JsonTree::Object(sub_map(root.subcommands@))),
            ("description"@, opt_tree(root.about)),
            ("global_flags"@, JsonTree::Array(global_args(root.args@))),
            ("name"@, JsonTree::Str(root.name@)),
        ];
        assert forall|j: int| 0 <= j < members@.len() implies #[trigger] expected[j] == (members@[j].0@, tree(members@[j].1)) by {
        }
        lemma_member_trees_ext(members@, expected);
    }
    JsonValue::Object(members)
}

/// Where the first subcommand named `name` is, if any.
fn find_sub_index(subs: &Vec<CommandInfo>, name: &str) -> (r: Option<usize>)
    ensures
        match r {
            Some(j) => j < subs.len() && find_sub(subs@, name@) == Some(subs@[j as int]),
            None => find_sub(subs@, name@) is None,
        },
{
    let mut j: usize = 0;
    proof {
        assert(subs@.skip(0) =~= subs@);
    }
    while j < subs.len()
        invariant
            j <= subs.len(),
            find_sub(subs@, name@) == find_sub(subs@.skip(j as int), name@),
        decreases subs.len() - j,
    {
        proof {
            assert(subs@.skip(j as int)[0] == subs@[j as int]);
            assert(subs@.skip(j as int).drop_first() =~= subs@.skip(j + 1));
        }
        if same_text(subs[j].name.as_str(), name) {
            return Some(j);
        }
        j = j + 1;
    }
    None
}

/// Describes the command at a path of command names as JSON: the whole
/// program for an empty path, the command the path leads to, or, where no
/// command has that path, an object whose `error` names it.
pub fn describe_commands(root: &CommandInfo, path: &[String]) -> (r: JsonValue)
    ensures
        tree(r) == describe_tree(*root, texts(path@)),
{
    if path.len() == 0 {
        return describe_full(root);
    }
    let ghost names = texts(path@);
    let mut cmd: &CommandInfo = root;
    let mut i: usize = 0;
    proof {
        assert(names.skip(0) =~= names);
    }
    while i < path.len()
        invariant
            i <= path.len(),
            names == texts(path@),
            names.len() == path@.len(),
            walk(*root, names) == walk(*cmd, names.skip(i as int)),
        decreases path.len() - i,
    {
        proof {
            assert(names.skip(i as int)[0] == path@[i as int]@);
            assert(names.skip(i as int).drop_first() =~= names.skip(i + 1));
        }
        match find_sub_index(&cmd.subcommands, path[i].as_str()) {
            Some(j) => {
                cmd = &cmd.subcommands[j];
            },
            None => {
                let mut m = String::from_str("Unknown command: ");
                m.append(join_strings(path, " ").as_str());
                let mut members: Vec<(String, JsonValue)> = Vec::new();
                members.push(member("error", JsonValue::String(m)));
                proof {
                    let expected = seq![("error"@, JsonTree::Str("Unknown command: "@ + join(names, " "@)))];
                    assert forall|j: int| 0 <= j < members@.len() implies #[trigger] expected[j] == (members@[j].0@, tree(members@[j].1)) by {
                    }
                    lemma_member_trees_ext(members@, expected);
                }
                return JsonValue::Object(members);
            },
        }
        i = i + 1;
    }
    proof {
        assert(names.skip(path.len() as int) =~= Seq::<Seq<char>>::empty());
    }
    describe_command(cmd)
}

/// The last subcommand named `k`, unless `k` is `help`.
pub open spec fn last_named(s: Seq<CommandInfo>, k: Seq<char>) -> Option<CommandInfo>
    decreases s.len(),
{
    if s.len() == 0 || k == "help"@ {
        None
    } else if s.last().name@ == k {
        Some(s.last())
    } else {
        last_named(s.drop_last(), k)
    }
}

/// Law: the subcommands of a description are listed by name in strictly
/// ascending order, each name once.
pub proof fn subcommands_sorted(s: Seq<CommandInfo>)
    ensures
        keys_sorted(sub_map(s)),
    decreases s.len(),
{
    if s.len() > 0 {
        subcommands_sorted(s.drop_last());
        if s.last().name@ != "help"@ {
            lemma_insert_keeps_sorted(sub_map(s.drop_last()), s.last().name@, command_tree(s.last()));
        }
    }
}

/// Law: under each name, the subcommands of a description hold the
/// description of the last subcommand of that name; `help` and names of
/// no subcommand are absent.
pub proof fn subcommand_lookup(s: Seq<CommandInfo>, k: Seq<char>)
    ensures
        member_value(sub_map(s), k) == match last_named(s, k) {
            Some(c) => Some(command_tree(c)),
            None => None::<JsonTree>,
        },
    decreases s.len(),
{
    if s.len() > 0 {
        subcommand_lookup(s.drop_last(), k);
        if s.last().name@ != "help"@ {
            lemma_insert_values(sub_map(s.drop_last()), s.last().name@, command_tree(s.last()), k);
        }
    }
}

/// Whether exactly one subcommand is named `k`.
pub open spec fn named_once(s: Seq<CommandInfo>, k: Seq<char>) -> bool {
    &&& exists|i: int| 0 <= i < s.len() && #[trigger] s[i].name@ == k
    &&& forall|i: int, j: int| 0 <= i < s.len() && 0 <= j < s.len() && #[trigger] s[i].name@ == k
        && #[trigger] s[j].name@ == k ==> i == j
}

/// The first subcommand named `k` is the one at `i` when none before it
/// has that name.
proof fn lemma_find_sub_at(s: Seq<CommandInfo>, k: Seq<char>, i: int)
    requires
        0 <= i < s.len(),
        s[i].name@ == k,
        forall|j: int| 0 <= j < i ==> #[trigger] s[j].name@ != k,
    ensures
        find_sub(s, k) == Some(s[i]),
    decreases i,
{
    if i > 0 {
        let rest = s.drop_first();
        assert forall|j: int| 0 <= j < i - 1 implies #[trigger] rest[j].name@ != k by {
            assert(rest[j] == s[j + 1]);
        }
        lemma_find_sub_at(rest, k, i - 1);
        assert(s[0].name@ != k);
    }
}

/// The last subcommand named `k` is the one at `i` when none after it has
/// that name (and `k` is not `help`).
proof fn lemma_last_named_at(s: Seq<CommandInfo>, k: Seq<char>, i: int)
    requires
        0 <= i < s.len(),
        s[i].name@ == k,
        k != "help"@,
        forall|j: int| i < j < s.len() ==> #[trigger] s[j].name@ != k,
    ensures
        last_named(s, k) == Some(s[i]),
    decreases s.len(),
{
    if i < s.len() - 1 {
        let init = s.drop_last();
        assert(s.last().name@ != k);
        assert forall|j: int| i < j < init.len() implies #[trigger] init[j].name@ != k by {
            assert(init[j] == s[j]);
        }
        lemma_last_named_at(init, k, i);
    }
}

/// Law: describing one command by its name shows what the description of
/// the whole program shows under that name, when exactly one command has
/// it (and it is not `help`).
pub proof fn command_described_alike(root: CommandInfo, k: Seq<char>)
    requires
        named_once(root.subcommands@, k),
        k != "help"@,
    ensures
        member_value(sub_map(root.subcommands@), k) == Some(describe_tree(root, seq![k])),
{
    let s = root.subcommands@;
    let i = choose|i: int| 0 <= i < s.len() && #[trigger] s[i].name@ == k;
    assert forall|j: int| 0 <= j < i implies #[trigger] s[j].name@ != k by {
        if s[j].name@ == k {
            assert(s[i].name@ == k);
        }
    }
    assert forall|j: int| i < j < s.len() implies #[trigger] s[j].name@ != k by {
        if s[j].name@ == k {
            assert(s[i].name@ == k);
        }
    }
    lemma_find_sub_at(s, k, i);
    lemma_last_named_at(s, k, i);
    subcommand_lookup(s, k);
    let path = seq![k];
    assert(path.drop_first() =~= Seq::<Seq<char>>::empty());
    assert(walk(root, path) == walk(s[i], path.drop_first()));
}

} // verus!
