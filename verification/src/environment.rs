use vstd::prelude::*;
use vstd::string::StringExecFns;
use crate::text::FromText;
use crate::text::str_eq;

verus! {

/// The value of the first variable of the given name, if there is one.
pub open spec fn env_value(vars: Seq<(String, String)>, key: Seq<char>) -> Option<Seq<char>>
    decreases vars.len(),
{
    if vars.len() == 0 {
        None
    } else if vars[0].0@ == key {
        Some(vars[0].1@)
    } else {
        env_value(vars.drop_first(), key)
    }
}

/// The position of the first variable of the given name, if there is one.
fn find_var(vars: &Vec<(String, String)>, search_key: &str) -> (found: Option<usize>)
    ensures
        match found {
            Some(i) => i < vars@.len() && env_value(vars@, search_key@) == Some(vars@[i as int].1@),
            None => env_value(vars@, search_key@).is_none(),
        },
{
    let mut i: usize = 0;
    proof {
        assert(vars@.subrange(0, vars@.len() as int) =~= vars@);
    }
    while i < vars.len()
        invariant
            i <= vars@.len(),
            env_value(vars@, search_key@) == env_value(
                vars@.subrange(i as int, vars@.len() as int),
                search_key@,
            ),
        decreases vars@.len() - i,
    {
        let ghost rest = vars@.subrange(i as int, vars@.len() as int);
        proof {
            assert(rest[0] == vars@[i as int]);
            assert(rest.drop_first() =~= vars@.subrange(i + 1, vars@.len() as int));
        }
        if str_eq(vars[i].0.as_str(), search_key) {
            return Some(i);
        }
        i = i + 1;
    }
    None
}

/// A variable of the environment as a text: the value of the first variable named
/// `search_key` among `vars`, or `default` where there is none.
pub fn get_env(vars: &Vec<(String, String)>, search_key: &str, default: &str) -> (value: String)
    ensures
        value@ == match env_value(vars@, search_key@) {
            Some(text) => text,
            None => default@,
        },
{
    match find_var(vars, search_key) {
        Some(i) => vars[i].1.clone(),
        None => String::from_str(default),
    }
}

/// A variable of the environment as a value of the type asked for: what the first variable
/// named `search_key` among `vars` spells, or `default` where there is no such variable or
/// its value spells nothing of that type.
pub fn get_env_typed<T: FromText>(vars: &Vec<(String, String)>, search_key: &str, default: T) -> (value:
    T)
    ensures
        match env_value(vars@, search_key@) {
            Some(text) => if T::readable(text) {
                T::reads_as(text, value)
            } else {
                value == default
            },
            None => value == default,
        },
{
    match find_var(vars, search_key) {
        Some(i) => match T::from_text(vars[i].1.as_str()) {
            Some(value) => value,
            None => default,
        },
        None => default,
    }
}

} // verus!
