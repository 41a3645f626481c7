//! Configuration: a workspace directory and the sidebar switch, taken
//! from the command line or parsed out of the config file's text.  The
//! file itself and the environment are read by the caller.

use vstd::prelude::*;

use crate::strutil::push_chars;

verus! {

/// The resolved configuration.
pub struct Config {
    pub workspace: Option<String>,
    pub sidebar: bool,
}

/// Whether a character counts as line-edge whitespace here.
pub open spec fn is_blank(c: char) -> bool {
    c == ' ' || c == '\t' || c == '\r'
}

/// `s` without its leading characters satisfying `p`.
pub open spec fn strip_lead(s: Seq<char>, p: spec_fn(char) -> bool) -> Seq<char>
    decreases s.len(),
{
    if s.len() > 0 && p(s.first()) {
        strip_lead(s.drop_first(), p)
    } else {
        s
    }
}

/// `s` without its trailing characters satisfying `p`.
pub open spec fn strip_trail(s: Seq<char>, p: spec_fn(char) -> bool) -> Seq<char>
    decreases s.len(),
{
    if s.len() > 0 && p(s.last()) {
        strip_trail(s.drop_last(), p)
    } else {
        s
    }
}

/// `s` without characters satisfying `p` at either end.
pub open spec fn strip_both(s: Seq<char>, p: spec_fn(char) -> bool) -> Seq<char> {
    strip_trail(strip_lead(s, p), p)
}

/// `s` without whitespace at either end.
pub open spec fn trim_ws(s: Seq<char>) -> Seq<char> {
    strip_both(s, |c: char| is_blank(c))
}

/// `s` without double quotes at either end.
pub open spec fn trim_quotes(s: Seq<char>) -> Seq<char> {
    strip_both(s, |c: char| c == '"')
}

/// The position of the first `c` in `s` at or after `i`.
pub open spec fn find_from(s: Seq<char>, c: char, i: int) -> Option<int>
    decreases s.len() - i,
{
    if i < 0 || i >= s.len() {
        Option::None
    } else if s[i] == c {
        Option::Some(i)
    } else {
        find_from(s, c, i + 1)
    }
}

/// A found first position agrees with `find_from`.
proof fn lemma_find_from_found(s: Seq<char>, c: char, start: int, i: int)
    requires
        0 <= start <= i < s.len(),
        s[i] == c,
        forall|m: int| start <= m < i ==> s[m] != c,
    ensures
        find_from(s, c, start) == Option::Some(i),
    decreases i - start,
{
    if start < i {
        lemma_find_from_found(s, c, start + 1, i);
    }
}

/// When `c` never occurs at or after `start`, `find_from` is None.
proof fn lemma_find_from_none(s: Seq<char>, c: char, start: int)
    requires
        start >= 0,
        forall|m: int| start <= m < s.len() ==> s[m] != c,
    ensures
        find_from(s, c, start) is None,
    decreases s.len() - start,
{
    if start < s.len() {
        lemma_find_from_none(s, c, start + 1);
    }
}

/// Stripping the lead keeps the suffix after the leading run.
proof fn lemma_strip_lead(s: Seq<char>, p: spec_fn(char) -> bool, a: int)
    requires
        0 <= a <= s.len(),
        forall|m: int| 0 <= m < a ==> p(s[m]),
        a < s.len() ==> !p(s[a]),
    ensures
        strip_lead(s, p) == s.skip(a),
    decreases a,
{
    if a == 0 {
        assert(s.skip(0) =~= s);
    } else {
        assert(p(s.first()));
        lemma_strip_lead(s.drop_first(), p, a - 1);
        assert(s.drop_first().skip(a - 1) =~= s.skip(a));
    }
}

/// Stripping the tail keeps the prefix before the trailing run.
proof fn lemma_strip_trail(s: Seq<char>, p: spec_fn(char) -> bool, b: int)
    requires
        0 <= b <= s.len(),
        forall|m: int| b <= m < s.len() ==> p(s[m]),
        b > 0 ==> !p(s[b - 1]),
    ensures
        strip_trail(s, p) == s.take(b),
    decreases s.len() - b,
{
    if b == s.len() {
        assert(s.take(b) =~= s);
    } else {
        assert(p(s.last()));
        lemma_strip_trail(s.drop_last(), p, b);
        assert(s.drop_last().take(b) =~= s.take(b));
    }
}

/// A `~` or `~/` prefix replaced by the home directory, when one is
/// known.
pub open spec fn spec_expand_tilde(path: Seq<char>, home: Option<Seq<char>>) -> Seq<char> {
    match home {
        Option::Some(h) => if path.len() >= 2 && path[0] == '~' && path[1] == '/' {
            h + path.skip(1)
        } else if path == seq!['~'] {
            h
        } else {
            path
        },
        Option::None => path,
    }
}

/// The configuration one line contributes, folded onto the values so
/// far: comments and blank lines change nothing, a `workspace` key
/// with a non-empty value replaces the workspace (tilde expanded), a
/// `sidebar` key sets the switch to whether its value is `true`.
pub open spec fn apply_line(
    ws: Option<Seq<char>>,
    sb: bool,
    line: Seq<char>,
    home: Option<Seq<char>>,
) -> (Option<Seq<char>>, bool) {
    let t = trim_ws(line);
    if t.len() == 0 || t.first() == '#' {
        (ws, sb)
    } else {
        match find_from(t, '=', 0) {
            Option::Some(eq) => {
                let key = trim_ws(t.take(eq));
                let value = trim_quotes(trim_ws(t.skip(eq + 1)));
                if key == "workspace"@ && value.len() > 0 {
                    (Option::Some(spec_expand_tilde(value, home)), sb)
                } else if key == "sidebar"@ {
                    (ws, value == "true"@)
                } else {
                    (ws, sb)
                }
            },
            Option::None => (ws, sb),
        }
    }
}

/// A found position lies between the start of the search and the end.
proof fn lemma_find_from_in_range(s: Seq<char>, c: char, i: int)
    ensures
        (match find_from(s, c, i) {
            Option::Some(nl) => i <= nl < s.len(),
            Option::None => true,
        }),
    decreases s.len() - i,
{
    if !(i < 0 || i >= s.len()) && s[i] != c {
        lemma_find_from_in_range(s, c, i + 1);
    }
}

/// The lines of the suffix of `s` from position `i`: split at
/// newlines, with no trailing empty line for a final newline.
pub open spec fn spec_lines_at(s: Seq<char>, i: int) -> Seq<Seq<char>>
    decreases s.len() - i,
    via spec_lines_at_decreases
{
    if i < 0 || i >= s.len() {
        Seq::<Seq<char>>::empty()
    } else {
        match find_from(s, '\n', i) {
            Option::Some(nl) => seq![s.subrange(i, nl)] + spec_lines_at(s, nl + 1),
            Option::None => seq![s.subrange(i, s.len() as int)],
        }
    }
}

#[via_fn]
proof fn spec_lines_at_decreases(s: Seq<char>, i: int) {
    lemma_find_from_in_range(s, '\n', i);
}

/// The lines of a whole text.
pub open spec fn spec_lines(s: Seq<char>) -> Seq<Seq<char>> {
    spec_lines_at(s, 0)
}

/// The whole file folded line by line.
pub open spec fn fold_lines(
    lines: Seq<Seq<char>>,
    i: int,
    ws: Option<Seq<char>>,
    sb: bool,
    home: Option<Seq<char>>,
) -> (Option<Seq<char>>, bool)
    decreases lines.len() - i,
{
    if i < 0 || i >= lines.len() {
        (ws, sb)
    } else {
        let r = apply_line(ws, sb, lines[i], home);
        fold_lines(lines, i + 1, r.0, r.1, home)
    }
}

/// The configuration a file text denotes.
pub open spec fn spec_config_of(text: Seq<char>, home: Option<Seq<char>>) -> (
    Option<Seq<char>>,
    bool,
) {
    fold_lines(spec_lines(text), 0, Option::None, false, home)
}

/// The view of an optional borrowed string.
pub open spec fn opt_view(s: Option<&String>) -> Option<Seq<char>> {
    match s {
        Option::Some(x) => Option::Some(x@),
        Option::None => Option::None,
    }
}

/// The view of an optional owned string.
pub open spec fn opt_string_view(s: Option<String>) -> Option<Seq<char>> {
    match s {
        Option::Some(x) => Option::Some(x@),
        Option::None => Option::None,
    }
}

impl Config {
    /// Resolve the configuration.  A workspace named on the command
    /// line wins outright (tilde expanded, sidebar off); otherwise the
    /// config file's text, when there is one, is parsed key by key.
    pub fn load(cli_workspace: Option<&String>, file_text: Option<&String>, home: Option<&String>)
        -> (r: Config)
        ensures
            (match cli_workspace {
                Option::Some(ws) => opt_string_view(r.workspace) == Option::Some(
                    spec_expand_tilde(ws@, opt_view(home)),
                ) && !r.sidebar,
                Option::None => (match file_text {
                    Option::Some(text) => (opt_string_view(r.workspace), r.sidebar)
                        == spec_config_of(text@, opt_view(home)),
                    Option::None => r.workspace is None && !r.sidebar,
                }),
            }),
    {
        if let Option::Some(ws) = cli_workspace {
            let expanded = expand_tilde(ws, home);
            return Config { workspace: Option::Some(expanded), sidebar: false };
        }
        let mut workspace: Option<String> = Option::None;
        let mut sidebar = false;
        if let Option::Some(text) = file_text {
            let ghost hv = opt_view(home);
            let ghost lv = spec_lines(text@);
            let lines = split_lines(text);
            let mut i: usize = 0;
            while i < lines.len()
                invariant
                    i <= lines@.len(),
                    lv == lines@.map_values(|l: Vec<char>| l@),
                    hv == opt_view(home),
                    fold_lines(lv, i as int, opt_string_view(workspace), sidebar, hv)
                        == fold_lines(lv, 0, Option::None, false, hv),
                decreases lines@.len() - i,
            {
                proof {
                    assert(lines@.map_values(|l: Vec<char>| l@)[i as int] == lines@[i as int]@);
                }
                apply_one_line(&mut workspace, &mut sidebar, &lines[i], home);
                i = i + 1;
            }
        }
        Config { workspace, sidebar }
    }
}

/// Replace a leading `~` with the home directory.
pub fn expand_tilde(path: &String, home: Option<&String>) -> (r: String)
    ensures
        r@ == spec_expand_tilde(path@, opt_view(home)),
{
    match home {
        Option::Some(h) => {
            let n = path.as_str().unicode_len();
            if n >= 2 && path.as_str().get_char(0) == '~' && path.as_str().get_char(1) == '/' {
                let mut out = h.clone();
                out.append(path.as_str().substring_char(1, n));
                proof {
                    assert(path@.subrange(1, path@.len() as int) =~= path@.skip(1));
                }
                out
            } else if n == 1 && path.as_str().get_char(0) == '~' {
                proof {
                    assert(path@ =~= seq!['~']);
                }
                h.clone()
            } else {
                proof {
                    assert(!(path@ =~= seq!['~']));
                }
                path.clone()
            }
        },
        Option::None => path.clone(),
    }
}

/// The characters of a string as a vector.
fn chars_of(s: &str) -> (r: Vec<char>)
    ensures
        r@ == s@,
{
    let n = s.unicode_len();
    let mut out: Vec<char> = Vec::new();
    let mut i: usize = 0;
    while i < n
        invariant
            i <= n,
            n == s@.len(),
            out@ == s@.take(i as int),
        decreases n - i,
    {
        proof {
            assert(s@.take(i + 1) =~= s@.take(i as int).push(s@[i as int]));
        }
        out.push(s.get_char(i));
        i = i + 1;
    }
    proof {
        assert(s@.take(n as int) =~= s@);
    }
    out
}

/// A copy of `v[from..to]`.
fn subvec(v: &Vec<char>, from: usize, to: usize) -> (r: Vec<char>)
    requires
        from <= to <= v@.len(),
    ensures
        r@ == v@.subrange(from as int, to as int),
{
    let mut out: Vec<char> = Vec::new();
    let mut i: usize = from;
    while i < to
        invariant
            from <= i <= to <= v@.len(),
            out@ == v@.subrange(from as int, i as int),
        decreases to - i,
    {
        proof {
            assert(v@.subrange(from as int, i + 1) =~= v@.subrange(from as int, i as int).push(
                v@[i as int],
            ));
        }
        out.push(v[i]);
        i = i + 1;
    }
    out
}

/// Split a text into its lines.
fn split_lines(text: &String) -> (r: Vec<Vec<char>>)
    ensures
        r@.map_values(|l: Vec<char>| l@) == spec_lines(text@),
{
    let chars = chars_of(text.as_str());
    let n = chars.len();
    let ghost tv = text@;
    let mut out: Vec<Vec<char>> = Vec::new();
    let mut start: usize = 0;
    while start < n
        invariant
            start <= n + 1,
            n == tv.len(),
            chars@ == tv,
            out@.map_values(|l: Vec<char>| l@) + spec_lines_at(tv, start as int) == spec_lines_at(
                tv,
                0,
            ),
        decreases n + 1 - start,
    {
        // Scan for the next newline.
        let mut j: usize = start;
        let mut found = false;
        while j < n
            invariant_except_break
                !found,
                forall|m: int| start <= m < j ==> tv[m] != '\n',
            invariant
                start <= j <= n,
                n == tv.len(),
                chars@ == tv,
            ensures
                found ==> j < n && tv[j as int] == '\n' && (forall|m: int|
                    start <= m < j ==> tv[m] != '\n'),
                !found ==> j == n && (forall|m: int| start <= m < j ==> tv[m] != '\n'),
            decreases n - j,
        {
            if chars[j] == '\n' {
                found = true;
                break ;
            }
            j = j + 1;
        }
        let line = subvec(&chars, start, j);
        proof {
            if found {
                lemma_find_from_found(tv, '\n', start as int, j as int);
            } else {
                lemma_find_from_none(tv, '\n', start as int);
            }
            assert(out@.push(line).map_values(|l: Vec<char>| l@) =~= out@.map_values(
                |l: Vec<char>| l@,
            ).push(line@));
            if found {
                assert(seq![tv.subrange(start as int, j as int)] + spec_lines_at(tv, j + 1)
                    =~= Seq::<Seq<char>>::empty().push(tv.subrange(start as int, j as int))
                    + spec_lines_at(tv, j + 1));
            } else {
                assert(spec_lines_at(tv, start as int) =~= Seq::<Seq<char>>::empty().push(
                    tv.subrange(start as int, n as int),
                ));
                assert(spec_lines_at(tv, n + 1) =~= Seq::<Seq<char>>::empty());
            }
        }
        out.push(line);
        start = if found {
            j + 1
        } else {
            n
        };
    }
    proof {
        assert(spec_lines_at(tv, start as int) =~= Seq::<Seq<char>>::empty());
    }
    out
}

/// Trim characters satisfying the given side predicates off a vector.
fn strip_vec_quotes(v: Vec<char>) -> (r: Vec<char>)
    ensures
        r@ == trim_quotes(v@),
{
    let ghost p = |c: char| c == '"';
    let n = v.len();
    let mut a: usize = 0;
    while a < n && v[a] == '"'
        invariant
            a <= n,
            n == v@.len(),
            forall|m: int| 0 <= m < a ==> v@[m] == '"',
        decreases n - a,
    {
        a = a + 1;
    }
    proof {
        lemma_strip_lead(v@, p, a as int);
    }
    let ghost led = v@.skip(a as int);
    let mut b: usize = n;
    while b > a && v[b - 1] == '"'
        invariant
            a <= b <= n,
            n == v@.len(),
            forall|m: int| b <= m < n ==> v@[m] == '"',
        decreases b,
    {
        b = b - 1;
    }
    proof {
        assert forall|m: int| (b - a) <= m < led.len() implies p(led[m]) by {
            assert(led[m] == v@[m + a]);
        }
        if b > a {
            assert(led[b - a - 1] == v@[b as int - 1]);
        }
        lemma_strip_trail(led, p, b - a);
        assert(led.take(b - a) =~= v@.subrange(a as int, b as int));
    }
    subvec(&v, a, b)
}

/// Trim whitespace off both ends of a vector.
fn trim_vec_ws(v: &Vec<char>, from: usize, to: usize) -> (r: Vec<char>)
    requires
        from <= to <= v@.len(),
    ensures
        r@ == trim_ws(v@.subrange(from as int, to as int)),
{
    let ghost p = |c: char| is_blank(c);
    let ghost s = v@.subrange(from as int, to as int);
    let mut a: usize = from;
    while a < to && (v[a] == ' ' || v[a] == '\t' || v[a] == '\r')
        invariant
            from <= a <= to <= v@.len(),
            forall|m: int| from <= m < a ==> is_blank(v@[m]),
        decreases to - a,
    {
        a = a + 1;
    }
    proof {
        assert forall|m: int| 0 <= m < (a - from) implies p(s[m]) by {
            assert(s[m] == v@[m + from]);
        }
        if a < to {
            assert(s[a - from] == v@[a as int]);
        }
        lemma_strip_lead(s, p, a - from);
    }
    let ghost led = s.skip(a - from);
    let mut b: usize = to;
    while b > a && (v[b - 1] == ' ' || v[b - 1] == '\t' || v[b - 1] == '\r')
        invariant
            a <= b <= to,
            from <= a,
            to <= v@.len(),
            forall|m: int| b <= m < to ==> is_blank(v@[m]),
        decreases b,
    {
        b = b - 1;
    }
    proof {
        assert forall|m: int| (b - a) <= m < led.len() implies p(led[m]) by {
            assert(led[m] == v@[m + a]);
        }
        if b > a {
            assert(led[b - a - 1] == v@[b as int - 1]);
        }
        lemma_strip_trail(led, p, b - a);
        assert(led.take(b - a) =~= v@.subrange(a as int, b as int));
    }
    subvec(v, a, b)
}

/// Whether a character vector equals a string.
fn chars_eq_str(v: &Vec<char>, s: &str) -> (r: bool)
    ensures
        r == (v@ == s@),
{
    let n = s.unicode_len();
    if v.len() != n {
        return false;
    }
    let mut i: usize = 0;
    while i < n
        invariant
            i <= n,
            n == s@.len(),
            n == v@.len(),
            forall|m: int| 0 <= m < i ==> v@[m] == s@[m],
        decreases n - i,
    {
        if v[i] != s.get_char(i) {
            return false;
        }
        i = i + 1;
    }
    proof {
        assert(v@ =~= s@);
    }
    true
}

/// Apply one configuration line to the values so far.
fn apply_one_line(
    workspace: &mut Option<String>,
    sidebar: &mut bool,
    line: &Vec<char>,
    home: Option<&String>,
)
    ensures
        (opt_string_view(*final(workspace)), *final(sidebar)) == apply_line(
            opt_string_view(*old(workspace)),
            *old(sidebar),
            line@,
            opt_view(home),
        ),
{
    let t = trim_vec_ws(line, 0, line.len());
    proof {
        assert(line@.subrange(0, line@.len() as int) =~= line@);
    }
    if t.len() == 0 {
        return ;
    }
    if t[0] == '#' {
        return ;
    }
    // Find the key/value separator.
    let n = t.len();
    let mut j: usize = 0;
    let mut found = false;
    while j < n
        invariant_except_break
            !found,
            forall|m: int| 0 <= m < j ==> t@[m] != '=',
        invariant
            j <= n,
            n == t@.len(),
        ensures
            found ==> j < n && t@[j as int] == '=' && (forall|m: int|
                0 <= m < j ==> t@[m] != '='),
            !found ==> j == n && (forall|m: int| 0 <= m < j ==> t@[m] != '='),
        decreases n - j,
    {
        if t[j] == '=' {
            found = true;
            break ;
        }
        j = j + 1;
    }
    if !found {
        proof {
            lemma_find_from_none(t@, '=', 0);
        }
        return ;
    }
    proof {
        lemma_find_from_found(t@, '=', 0, j as int);
    }
    let key = trim_vec_ws(&t, 0, j);
    proof {
        assert(t@.subrange(0, j as int) =~= t@.take(j as int));
    }
    let value_ws = trim_vec_ws(&t, j + 1, n);
    proof {
        assert(t@.subrange(j + 1, n as int) =~= t@.skip(j + 1));
    }
    let value = strip_vec_quotes(value_ws);
    if chars_eq_str(&key, "workspace") && value.len() > 0 {
        let mut vs = String::new();
        push_chars(&mut vs, &value);
        let expanded = expand_tilde(&vs, home);
        *workspace = Option::Some(expanded);
    } else if chars_eq_str(&key, "sidebar") {
        *sidebar = chars_eq_str(&value, "true");
    }
}

} // verus!
