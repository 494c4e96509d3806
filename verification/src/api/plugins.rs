//! Tool-plugin file names and the registration of loaded plugins.
use vstd::prelude::*;
use crate::text::{append_chars, chars_of, ends_with, lit, lowercase, lowercase_chars, string_of, trim};

verus! {

broadcast use vstd::string::group_string_axioms;

/// The characters a plugin file name may hold: ASCII letters and digits, `-`, `_` and `.`.
pub open spec fn plugin_char(c: char) -> bool {
    ('a' <= c && c <= 'z') || ('A' <= c && c <= 'Z') || ('0' <= c && c <= '9') || c == '-' || c
        == '_' || c == '.'
}

/// Whether every character of `s` may stand in a plugin file name.
pub open spec fn plugin_chars(s: Seq<char>) -> bool {
    forall|i: int| 0 <= i < s.len() ==> plugin_char(#[trigger] s[i])
}

fn is_plugin_char(c: char) -> (r: bool)
    ensures
        r == plugin_char(c),
{
    ('a' <= c && c <= 'z') || ('A' <= c && c <= 'Z') || ('0' <= c && c <= '9') || c == '-' || c
        == '_' || c == '.'
}

/// The plugin file name as given, when it is not empty and every character
/// is allowed; any other name (a path, a space, a non-ASCII letter) is refused
/// rather than rewritten.
pub fn sanitize_plugin_filename(name: &str) -> (r: Option<String>)
    ensures
        match r {
            Some(s) => s@ == name@ && name@.len() > 0 && plugin_chars(name@),
            None => !(name@.len() > 0 && plugin_chars(name@)),
        },
{
    let cs = chars_of(name);
    if cs.len() == 0 {
        return None;
    }
    for i in 0..cs.len()
        invariant
            cs@ == name@,
            forall|k: int| 0 <= k < i ==> plugin_char(#[trigger] cs@[k]),
    {
        if !is_plugin_char(cs[i]) {
            assert(!plugin_char(name@[i as int]));
            return None;
        }
    }
    Some(name.to_owned())
}

/// Whether a file name ends in `.json`, in any case.
pub open spec fn json_file_name(name: Seq<char>) -> bool {
    ends_with(lowercase(name), ".json"@)
}

/// Whether a file name ends in `.json`, in any case.
pub fn is_json_file_name(name: &str) -> (r: bool)
    ensures
        r == json_file_name(name@),
{
    crate::text::ends_with_chars(&lowercase_chars(&chars_of(name)), &lit(".json"))
}

/// The message of a plugin that shares a built-in tool's name.
pub open spec fn builtin_clash_message(name: Seq<char>) -> Seq<char> {
    name + ": 与内置工具重名，已拒绝注册（插件不得劫持内置工具）"@
}

/// Which loaded plugins are registered: every one whose name is not a
/// built-in tool's, in order; each other one gives an error.
pub struct PluginPlan {
    pub register: Vec<usize>,
    pub errors: Vec<String>,
}

/// The positions of the plugins registered among the first `k`.
pub open spec fn registered_upto(builtin: Seq<bool>, k: int) -> Seq<usize>
    decreases k,
{
    if k <= 0 {
        seq![]
    } else if builtin[k - 1] {
        registered_upto(builtin, k - 1)
    } else {
        registered_upto(builtin, k - 1).push((k - 1) as usize)
    }
}

/// The errors of the plugins refused among the first `k`.
pub open spec fn clashes_upto(names: Seq<String>, builtin: Seq<bool>, k: int) -> Seq<Seq<char>>
    decreases k,
{
    if k <= 0 {
        seq![]
    } else if builtin[k - 1] {
        clashes_upto(names, builtin, k - 1).push(builtin_clash_message(names[k - 1]@))
    } else {
        clashes_upto(names, builtin, k - 1)
    }
}

/// The registration of loaded plugins named `names`, of which those marked
/// in `builtin` share a built-in tool's name: the others are registered (the
/// count is the number of positions), those are refused with an error each.
pub fn register_plugins(names: &Vec<String>, builtin: &Vec<bool>) -> (r: PluginPlan)
    requires
        names@.len() == builtin@.len(),
    ensures
        r.register@ == registered_upto(builtin@, builtin@.len() as int),
        r.errors@.map_values(|s: String| s@) == clashes_upto(names@, builtin@, builtin@.len() as int),
{
    let mut register: Vec<usize> = Vec::new();
    let mut errors: Vec<String> = Vec::new();
    for k in 0..names.len()
        invariant
            names@.len() == builtin@.len(),
            register@ == registered_upto(builtin@, k as int),
            errors@.map_values(|s: String| s@) == clashes_upto(names@, builtin@, k as int),
    {
        if builtin[k] {
            let mut m = chars_of(names[k].as_str());
            append_chars(&mut m, &lit(": 与内置工具重名，已拒绝注册（插件不得劫持内置工具）"));
            errors.push(string_of(&m));
            assert(errors@.map_values(|s: String| s@) =~= clashes_upto(names@, builtin@, k + 1));
        } else {
            register.push(k);
        }
    }
    PluginPlan { register, errors }
}

/// Whether a plugin's name and script are both present (not blank).
pub fn plugin_config_complete(name: &str, script: &str) -> (r: bool)
    ensures
        r == (trim(name@).len() > 0 && trim(script@).len() > 0),
{
    crate::text::trim_chars(&chars_of(name)).len() > 0 && crate::text::trim_chars(&chars_of(script)).len() > 0
}

/// An accepted plugin file name holds no path separator or drive colon, so
/// it always names a file directly inside the plugin directory.
pub proof fn law_plugin_name_stays_in_directory(name: Seq<char>)
    ensures
        plugin_chars(name) ==> forall|i: int|
            0 <= i < name.len() ==> name[i] != '/' && name[i] != '\\' && name[i] != ':',
{
    if plugin_chars(name) {
        assert forall|i: int| 0 <= i < name.len() implies name[i] != '/' && name[i] != '\\' && name[i] != ':' by {
            assert(plugin_char(name[i]));
        }
    }
}

/// Registration never lets a plugin take a built-in tool's name: every
/// registered position is a non-built-in one, every non-built-in plugin is
/// registered, in the order loaded, and every other plugin gives one error.
pub proof fn law_register_never_shadows_builtin(names: Seq<String>, builtin: Seq<bool>, k: int)
    requires
        0 <= k <= builtin.len(),
        builtin.len() <= usize::MAX,
    ensures
        ({
            let reg = registered_upto(builtin, k);
            &&& forall|i: int| 0 <= i < reg.len() ==> (reg[i] as int) < k && !builtin[reg[i] as int]
            &&& forall|i: int, j: int| 0 <= i < j < reg.len() ==> reg[i] < reg[j]
            &&& forall|p: int| 0 <= p < k && !builtin[p] ==> reg.contains(p as usize)
            &&& reg.len() + clashes_upto(names, builtin, k).len() == k
        }),
    decreases k,
{
    if k > 0 {
        law_register_never_shadows_builtin(names, builtin, k - 1);
        let prev = registered_upto(builtin, k - 1);
        let reg = registered_upto(builtin, k);
        if !builtin[k - 1] {
            assert(reg[reg.len() - 1] == (k - 1) as usize);
            assert forall|p: int| 0 <= p < k && !builtin[p] implies reg.contains(p as usize) by {
                if p < k - 1 {
                    let w = choose|w: int| 0 <= w < prev.len() && prev[w] == p as usize;
                    assert(reg[w] == p as usize);
                } else {
                    assert(reg[reg.len() - 1] == p as usize);
                }
            }
        }
    }
}

} // verus!
