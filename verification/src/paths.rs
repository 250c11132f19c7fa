//! Paths as text: joining, expanding a leading `~`, and ting's default config path.
use vstd::prelude::*;

use etcetera::BaseStrategy;

verus! {

/// Appending `part` to `base` the way a path buffer does: an absolute `part`
/// replaces `base`, otherwise a `/` separates the two unless `base` is empty or
/// already ends in one.
pub open spec fn join_spec(base: Seq<char>, part: Seq<char>) -> Seq<char> {
    if part.len() > 0 && part[0] == '/' {
        part
    } else if base.len() == 0 || base.last() == '/' {
        base + part
    } else {
        base.push('/') + part
    }
}

/// A path the user writes as `~/rest` names the same path as the home directory
/// joined with `rest`, and writing that joined path out in full gives it back
/// unchanged: both are read from the same place. `rest` is relative and has no
/// separator or `.` component at either end; the home directory is not empty and
/// does not itself start with a `~` component.
pub proof fn law_home_relative_path(home: Seq<char>, rest: Seq<char>)
    requires
        home.len() > 0,
        below_home(home) is None,
        !starts_with_skippable(rest),
        !ends_with_skippable(rest),
    ensures
        expand_tilde_spec(seq!['~', '/'] + rest, Some(home)) == join_spec(home, rest),
        expand_tilde_spec(join_spec(home, rest), Some(home)) == join_spec(home, rest),
{
    let p = seq!['~', '/'] + rest;
    assert(p[0] == '~' && p[1] == '/');
    let after = p.drop_first();
    assert(starts_with_skippable(after));
    assert(after.drop_first() =~= rest);
    assert(trim_leading(after) == trim_leading(rest));
    assert(trim_leading(rest) == rest);
    assert(trim_trailing(rest) == rest);
    let j = join_spec(home, rest);
    assert(j.len() >= home.len());
    assert(j[0] == home[0]);
    if home.len() >= 2 {
        assert(j[1] == home[1]);
    } else {
        assert(home[0] != '~');
    }
}

/// `s` starts with a separator or with a `.` component (`.` alone or `./`).
pub open spec fn starts_with_skippable(s: Seq<char>) -> bool {
    s.len() > 0 && (s[0] == '/' || (s[0] == '.' && (s.len() == 1 || s[1] == '/')))
}

/// `s` ends with a separator or with a `.` component (`.` alone or `/.`).
pub open spec fn ends_with_skippable(s: Seq<char>) -> bool {
    s.len() > 0 && (s.last() == '/' || (s.last() == '.' && (s.len() == 1 || s[s.len() - 2]
        == '/')))
}

/// `s` without the separators and `.` components it starts with, as a path's
/// component view drops them.
pub open spec fn trim_leading(s: Seq<char>) -> Seq<char>
    decreases s.len(),
{
    if starts_with_skippable(s) {
        trim_leading(s.drop_first())
    } else {
        s
    }
}

/// `s` without the separators and `.` components it ends with, as a path's
/// component view drops them.
pub open spec fn trim_trailing(s: Seq<char>) -> Seq<char>
    decreases s.len(),
{
    if ends_with_skippable(s) {
        trim_trailing(s.drop_last())
    } else {
        s
    }
}

/// When `path` starts with the component `~` (it is `~` or begins with `~/`), the
/// rest of the path below it, as stripping the prefix `~` off a path gives it:
/// without the separators and `.` components at either end.
pub open spec fn below_home(path: Seq<char>) -> Option<Seq<char>> {
    if path.len() >= 1 && path[0] == '~' && (path.len() == 1 || path[1] == '/') {
        Some(trim_trailing(trim_leading(path.drop_first())))
    } else {
        None
    }
}

/// The path that `~` expansion gives for `path` when the home directory is `home`.
pub open spec fn expand_tilde_spec(path: Seq<char>, home: Option<Seq<char>>) -> Seq<char> {
    match (below_home(path), home) {
        (Some(rest), Some(h)) => join_spec(h, rest),
        _ => path,
    }
}

/// Where ting's config file lies inside the user's configuration directory.
pub open spec fn config_file_in(config_dir: Seq<char>) -> Seq<char> {
    join_spec(join_spec(config_dir, "ting"@), "ting.toml"@)
}

/// `base` followed by `part` as a path buffer joins them.
pub fn join_path(base: &str, part: &str) -> (res: String)
    ensures
        res@ == join_spec(base@, part@),
{
    let part_len = part.unicode_len();
    let base_len = base.unicode_len();
    if part_len > 0 && part.get_char(0) == '/' {
        return String::from_str(part);
    }
    let mut res = String::from_str(base);
    if base_len > 0 && base.get_char(base_len - 1) != '/' {
        proof {
            reveal_strlit("/");
            assert("/"@ =~= seq!['/']);
        }
        res.append("/");
    }
    res.append(part);
    res
}

/// Whether `s[i..to]` starts with a separator or a `.` component.
fn front_skippable(s: &str, i: usize, to: usize) -> (res: bool)
    requires
        i <= to <= s@.len(),
    ensures
        res == starts_with_skippable(s@.subrange(i as int, to as int)),
{
    if i >= to {
        return false;
    }
    let c = s.get_char(i);
    if c == '/' {
        return true;
    }
    if c != '.' {
        return false;
    }
    if i + 1 == to {
        return true;
    }
    let d = s.get_char(i + 1);
    proof {
        assert(s@.subrange(i as int, to as int)[1] == d);
    }
    d == '/'
}

/// Whether `s[from..j]` ends with a separator or a `.` component.
fn back_skippable(s: &str, from: usize, j: usize) -> (res: bool)
    requires
        from <= j <= s@.len(),
    ensures
        res == ends_with_skippable(s@.subrange(from as int, j as int)),
{
    if j <= from {
        return false;
    }
    let c = s.get_char(j - 1);
    proof {
        assert(s@.subrange(from as int, j as int).last() == c);
    }
    if c == '/' {
        return true;
    }
    if c != '.' {
        return false;
    }
    if j - 1 == from {
        return true;
    }
    let d = s.get_char(j - 2);
    proof {
        let t = s@.subrange(from as int, j as int);
        assert(t[t.len() - 2] == d);
    }
    d == '/'
}

/// Start of what is left of `s[from..to]` once its leading separators and `.`
/// components are dropped.
fn skip_leading(s: &str, from: usize, to: usize) -> (res: usize)
    requires
        from <= to <= s@.len(),
    ensures
        from <= res <= to,
        trim_leading(s@.subrange(from as int, to as int)) == s@.subrange(res as int, to as int),
{
    let mut i = from;
    while front_skippable(s, i, to)
        invariant
            from <= i <= to <= s@.len(),
            trim_leading(s@.subrange(from as int, to as int)) == trim_leading(
                s@.subrange(i as int, to as int),
            ),
        decreases to - i,
    {
        assert(s@.subrange(i as int, to as int).drop_first() =~= s@.subrange(
            i + 1,
            to as int,
        ));
        i = i + 1;
    }
    i
}

/// End of what is left of `s[from..to]` once its trailing separators and `.`
/// components are dropped.
fn skip_trailing(s: &str, from: usize, to: usize) -> (res: usize)
    requires
        from <= to <= s@.len(),
    ensures
        from <= res <= to,
        trim_trailing(s@.subrange(from as int, to as int)) == s@.subrange(
            from as int,
            res as int,
        ),
{
    let mut j = to;
    while back_skippable(s, from, j)
        invariant
            from <= j <= to <= s@.len(),
            trim_trailing(s@.subrange(from as int, to as int)) == trim_trailing(
                s@.subrange(from as int, j as int),
            ),
        decreases j - from,
    {
        assert(s@.subrange(from as int, j as int).drop_last() =~= s@.subrange(
            from as int,
            j - 1,
        ));
        j = j - 1;
    }
    j
}

/// The rest of `path` below a leading `~` component, if it has one.
pub fn path_below_home(path: &str) -> (res: Option<String>)
    ensures
        match (res, below_home(path@)) {
            (Some(r), Some(s)) => r@ == s,
            (None, None) => true,
            _ => false,
        },
{
    let n = path.unicode_len();
    if n >= 1 && path.get_char(0) == '~' && (n == 1 || path.get_char(1) == '/') {
        let lo = skip_leading(path, 1, n);
        let hi = skip_trailing(path, lo, n);
        proof {
            assert(path@.drop_first() =~= path@.subrange(1, n as int));
        }
        Some(String::from_str(path.substring_char(lo, hi)))
    } else {
        None
    }
}

/// `~` expansion of `path` against a known home directory: a path that starts with
/// the component `~` is placed below `home`; any other path, or any path when the
/// home directory is unknown, is left as it is.
pub fn expand_tilde_with_home(path: &str, home: Option<&str>) -> (res: String)
    ensures
        res@ == expand_tilde_spec(
            path@,
            match home {
                Some(h) => Some(h@),
                None => None,
            },
        ),
{
    match path_below_home(path) {
        Some(rest) => match home {
            Some(h) => join_path(h, rest.as_str()),
            None => String::from_str(path),
        },
        None => String::from_str(path),
    }
}

/// `etcetera::home_dir`: the current user's home directory, as text, or `None`
/// when it cannot be located. It depends on the process environment, so nothing
/// is stated of the result.
#[verifier::external_body]
pub(crate) fn current_home_dir() -> (res: Option<String>) {
    match etcetera::home_dir() {
        Ok(p) => Some(p.to_string_lossy().into_owned()),
        Err(_) => None,
    }
}

/// `~` expansion against the current user's home directory. A path that does not
/// start with the component `~` comes back unchanged; one that does comes back
/// either unchanged (no home directory known) or placed below some home directory.
pub fn expand_tilde(path: &str) -> (res: String)
    ensures
        below_home(path@) is None ==> res@ == path@,
        res@ == path@ || exists|h: Seq<char>| res@ == expand_tilde_spec(path@, Some(h)),
{
    let home = current_home_dir();
    match home {
        Some(h) => {
            let res = expand_tilde_with_home(path, Some(h.as_str()));
            assert(res@ == expand_tilde_spec(path@, Some(h@)));
            res
        },
        None => expand_tilde_with_home(path, None),
    }
}

/// Path of ting's config file inside the configuration directory `config_dir`.
pub fn config_path_in(config_dir: &str) -> (res: String)
    ensures
        res@ == config_file_in(config_dir@),
{
    let dir = join_path(config_dir, "ting");
    join_path(dir.as_str(), "ting.toml")
}

/// `etcetera::choose_base_strategy` followed by `BaseStrategy::config_dir`: the
/// user's configuration directory as text, or the message of the error when the
/// home directory cannot be located. It depends on the process environment, so
/// nothing is stated of the result.
#[verifier::external_body]
fn base_config_dir() -> (res: Result<String, String>) {
    match etcetera::choose_base_strategy() {
        Ok(strategy) => Ok(strategy.config_dir().to_string_lossy().into_owned()),
        Err(e) => Err(e.to_string()),
    }
}

/// ting's default config path: `ting/ting.toml` inside the user's configuration
/// directory, or the reason that directory cannot be determined.
pub fn get_default_config_path() -> (res: Result<String, String>)
    ensures
        res matches Ok(p) ==> exists|d: Seq<char>| p@ == config_file_in(d),
{
    match base_config_dir() {
        Ok(dir) => {
            let p = config_path_in(dir.as_str());
            assert(p@ == config_file_in(dir@));
            Ok(p)
        },
        Err(e) => Err(e),
    }
}

} // verus!
