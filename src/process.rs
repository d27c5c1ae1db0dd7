//! What the init process applies from `process` before it runs the command.
use vstd::prelude::*;
use vstd::string::*;

verus! {

/// Whether the process asked for a terminal: `process.terminal` is present
/// and true.
pub fn has_terminal(terminal: Option<bool>) -> (r: bool)
    ensures
        r == (terminal == Some(true)),
{
    match terminal {
        Some(t) => t,
        None => false,
    }
}

/// Splits a `KEY=VALUE` entry at its first `=`; nothing where it holds none.
pub fn split_env(entry: &str) -> (r: Option<(String, String)>)
    ensures
        r is Some <==> entry@.contains('='),
        r matches Some((k, v)) ==> k@ + "="@ + v@ == entry@ && !k@.contains('='),
{
    proof {
        reveal_strlit("=");
    }
    let n = entry.unicode_len();
    let mut i: usize = 0;
    while i < n && entry.get_char(i) != '='
        invariant
            n == entry@.len(),
            i <= n,
            forall|j: int| 0 <= j < i ==> entry@[j] != '=',
        decreases n - i,
    {
        i = i + 1;
    }
    if i == n {
        assert(!entry@.contains('='));
        None
    } else {
        let k = entry.substring_char(0, i).to_string();
        let v = entry.substring_char(i + 1, n).to_string();
        assert(k@ + "="@ + v@ =~= entry@);
        assert(!k@.contains('=')) by {
            if k@.contains('=') {
                let j = choose|j: int| 0 <= j < k@.len() && k@[j] == '=';
                assert(entry@[j] == '=');
            }
        }
        Some((k, v))
    }
}

/// The environment the process starts with: every `KEY=VALUE` entry of
/// `process.env`, in order, split at its first `=`; entries without one are
/// left out.
pub fn environment(env: &Vec<String>) -> (r: Vec<(String, String)>)
    ensures
        r@.len() <= env@.len(),
        forall|i: int| 0 <= i < r@.len() ==> !(#[trigger] r@[i]).0@.contains('='),
        r@.len() == env_entries(env@.map_values(|s: String| s@)).len(),
        forall|i: int| 0 <= i < r@.len() ==> (#[trigger] r@[i]).0@ + "="@ + r@[i].1@
            == env_entries(env@.map_values(|s: String| s@))[i],
{
    let ghost views = env@.map_values(|s: String| s@);
    let mut r: Vec<(String, String)> = Vec::new();
    let mut i: usize = 0;
    while i < env.len()
        invariant
            i <= env@.len(),
            views == env@.map_values(|s: String| s@),
            r@.len() <= i,
            r@.len() == env_entries(views.subrange(0, i as int)).len(),
            forall|j: int| 0 <= j < r@.len() ==> !(#[trigger] r@[j]).0@.contains('='),
            forall|j: int| 0 <= j < r@.len() ==> (#[trigger] r@[j]).0@ + "="@ + r@[j].1@
                == env_entries(views.subrange(0, i as int))[j],
        decreases env@.len() - i,
    {
        assert(views.subrange(0, i + 1).drop_last() =~= views.subrange(0, i as int));
        match split_env(env[i].as_str()) {
            Some(kv) => {
                r.push(kv);
            },
            None => {},
        }
        i = i + 1;
    }
    assert(views.subrange(0, env@.len() as int) =~= views);
    r
}

/// The entries of `env` that hold a `=`, in order.
pub open spec fn env_entries(env: Seq<Seq<char>>) -> Seq<Seq<char>>
    decreases env.len(),
{
    if env.len() == 0 {
        Seq::empty()
    } else if env.last().contains('=') {
        env_entries(env.drop_last()).push(env.last())
    } else {
        env_entries(env.drop_last())
    }
}

} // verus!
