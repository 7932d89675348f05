//! The target descriptor `repo[#fragment][@host]` and its grammar.
//!
//! The fragment is an attribute path of at most two elements — a node and
//! optionally a profile — where each element is either a bare identifier or
//! a quoted string. A host override may follow the fragment after `@`. The
//! parser rejects paths deeper than `node.profile` with a distinct error.

use vstd::prelude::*;

verus! {

use crate::strutil::find_char_from;
use crate::strutil::find_char;
use crate::strutil::lemma_find_char_from_bounds;
use crate::strutil::lemma_find_char_from_is;

/// A parsed target descriptor.
#[derive(Debug)]
pub struct DeployFlake {
    pub repo: String,
    pub node: Option<String>,
    pub profile: Option<String>,
    pub host: Option<String>,
}

fn opt_str_eq(a: &Option<String>, b: &Option<String>) -> (r: bool)
    ensures
        r == (opt_str_view(*a) == opt_str_view(*b)),
{
    match (a, b) {
        (Some(x), Some(y)) => crate::strutil::str_eq(x.as_str(), y.as_str()),
        (None, None) => true,
        _ => false,
    }
}

impl PartialEq for DeployFlake {
    /// Two descriptors are equal when they spell the same repo, node,
    /// profile and host.
    fn eq(&self, other: &Self) -> (r: bool) {
        crate::strutil::str_eq(self.repo.as_str(), other.repo.as_str()) && opt_str_eq(
            &self.node,
            &other.node,
        ) && opt_str_eq(&self.profile, &other.profile) && opt_str_eq(&self.host, &other.host)
    }
}

impl vstd::std_specs::cmp::PartialEqSpecImpl for DeployFlake {
    open spec fn obeys_eq_spec() -> bool {
        true
    }

    open spec fn eq_spec(&self, other: &Self) -> bool {
        self@ == other@
    }
}

/// The mathematical shape of a parsed target descriptor.
pub struct TargetView {
    pub repo: Seq<char>,
    pub node: Option<Seq<char>>,
    pub profile: Option<Seq<char>>,
    pub host: Option<Seq<char>>,
}

pub open spec fn opt_str_view(o: Option<String>) -> Option<Seq<char>> {
    match o {
        Some(s) => Some(s@),
        None => None,
    }
}

impl View for DeployFlake {
    type V = TargetView;

    open spec fn view(&self) -> TargetView {
        TargetView {
            repo: self.repo@,
            node: opt_str_view(self.node),
            profile: opt_str_view(self.profile),
            host: opt_str_view(self.host),
        }
    }
}

#[derive(Clone, Copy, PartialEq, Eq, Structural, Debug)]
pub enum ParseFlakeError {
    /// The attribute path went deeper than `node.profile`.
    PathTooLong,
    /// A token outside the attribute-path grammar.
    Unrecognized,
}

/// Characters allowed in a bare (unquoted) identifier.
pub open spec fn is_bare_char_spec(c: char) -> bool {
    ||| ('a' <= c && c <= 'z')
    ||| ('A' <= c && c <= 'Z')
    ||| ('0' <= c && c <= '9')
    ||| c == '_'
    ||| c == '-'
    ||| c == '\''
}

pub fn is_bare_char(c: char) -> (r: bool)
    ensures
        r == is_bare_char_spec(c),
{
    ('a' <= c && c <= 'z') || ('A' <= c && c <= 'Z') || ('0' <= c && c <= '9') || c == '_' || c
        == '-' || c == '\''
}

/// Index of the first non-bare character at or after `i`; `s.len()` when
/// the rest is all bare.
pub open spec fn scan_bare(s: Seq<char>, i: int) -> int
    decreases s.len() - i,
{
    if i < 0 || i >= s.len() {
        s.len() as int
    } else if !is_bare_char_spec(s[i]) {
        i
    } else {
        scan_bare(s, i + 1)
    }
}

pub proof fn lemma_scan_bare_bounds(s: Seq<char>, i: int)
    requires
        0 <= i <= s.len(),
    ensures
        i <= scan_bare(s, i) <= s.len(),
        scan_bare(s, i) < s.len() ==> !is_bare_char_spec(s[scan_bare(s, i)]),
        forall|j: int| i <= j < scan_bare(s, i) ==> is_bare_char_spec(s[j]),
    decreases s.len() - i,
{
    if i < s.len() && is_bare_char_spec(s[i]) {
        lemma_scan_bare_bounds(s, i + 1);
    }
}

fn scan_bare_exec(s: &str, from: usize) -> (r: usize)
    requires
        from <= s@.len(),
    ensures
        r == scan_bare(s@, from as int),
{
    let n = s.unicode_len();
    let mut i = from;
    while i < n
        invariant
            from <= i <= n,
            n == s@.len(),
            scan_bare(s@, from as int) == scan_bare(s@, i as int),
        decreases n - i,
    {
        if !is_bare_char(s.get_char(i)) {
            return i;
        }
        i = i + 1;
    }
    i
}

/// Index of the last occurrence of `c` in `s`, or `-1`.
pub open spec fn find_last(s: Seq<char>, c: char) -> int
    decreases s.len(),
{
    if s.len() == 0 {
        -1
    } else if s[s.len() - 1] == c {
        s.len() - 1
    } else {
        find_last(s.drop_last(), c)
    }
}

pub proof fn lemma_find_last_bounds(s: Seq<char>, c: char)
    ensures
        -1 <= find_last(s, c) < s.len(),
        find_last(s, c) >= 0 ==> s[find_last(s, c)] == c,
        forall|j: int| find_last(s, c) < j < s.len() ==> s[j] != c,
    decreases s.len(),
{
    if s.len() > 0 && s[s.len() - 1] != c {
        lemma_find_last_bounds(s.drop_last(), c);
        assert(forall|j: int| 0 <= j < s.len() - 1 ==> s.drop_last()[j] == s[j]);
    }
}

/// Last occurrence of `c` among the first `end` characters of `s`.
pub fn find_last_in(s: &str, c: char, end: usize) -> (r: Option<usize>)
    requires
        end <= s@.len(),
    ensures
        match r {
            Some(i) => i == find_last(s@.take(end as int), c),
            None => find_last(s@.take(end as int), c) == -1,
        },
{
    let mut i = end;
    while i > 0
        invariant
            i <= end,
            end <= s@.len(),
            find_last(s@.take(end as int), c) == find_last(s@.take(i as int), c),
        decreases i,
    {
        proof {
            assert(s@.take(i as int).drop_last() =~= s@.take(i as int - 1));
            assert(s@.take(i as int).last() == s@[i as int - 1]);
        }
        if s.get_char(i - 1) == c {
            return Some(i - 1);
        }
        i = i - 1;
    }
    proof {
        assert(s@.take(0).len() == 0);
    }
    None
}

fn find_last_exec(s: &str, c: char) -> (r: Option<usize>)
    ensures
        match r {
            Some(i) => i == find_last(s@, c),
            None => find_last(s@, c) == -1,
        },
{
    let n = s.unicode_len();
    proof {
        assert(s@.take(n as int) =~= s@);
    }
    find_last_in(s, c, n)
}

/// One step index forward, guarding the recursion of the fragment parser;
/// wherever the parser uses it, the raw index is in fact past `i` already.
pub open spec fn past(i: int, j: int) -> int {
    if j <= i {
        i + 1
    } else {
        j
    }
}

/// As `past`, further clamped to `len`; the raw index is in fact within
/// bounds wherever the parser uses it.
pub open spec fn step_to(len: int, i: int, j: int) -> int {
    if j <= i {
        i + 1
    } else if j > len {
        len
    } else {
        j
    }
}

/// The fragment parser, from position `i`, with the element assignments
/// made so far. One recursion step consumes a dot or a whole element.
pub open spec fn parse_frag_from(
    frag: Seq<char>,
    i: int,
    node_over: bool,
    node: Option<Seq<char>>,
    profile: Option<Seq<char>>,
) -> Result<(Option<Seq<char>>, Option<Seq<char>>), ParseFlakeError>
    decreases frag.len() - i,
{
    if i < 0 || i >= frag.len() {
        Ok((node, profile))
    } else if frag[i] == '.' {
        if node_over {
            Err(ParseFlakeError::PathTooLong)
        } else {
            parse_frag_from(frag, i + 1, true, node, profile)
        }
    } else if frag[i] == '"' {
        let close = find_char_from(frag, '"', i + 1);
        if close >= frag.len() {
            Err(ParseFlakeError::Unrecognized)
        } else {
            let text = frag.subrange(i + 1, close);
            let next = past(i, close + 1);
            if next < frag.len() && frag[next] != '.' {
                Err(ParseFlakeError::Unrecognized)
            } else if !node_over {
                parse_frag_from(frag, next, false, Some(text), profile)
            } else {
                parse_frag_from(frag, next, true, node, Some(text))
            }
        }
    } else if is_bare_char_spec(frag[i]) {
        let end = step_to(frag.len() as int, i, scan_bare(frag, i));
        let text = frag.subrange(i, end);
        if end < frag.len() && frag[end] != '.' {
            Err(ParseFlakeError::Unrecognized)
        } else if !node_over {
            parse_frag_from(frag, end, false, Some(text), profile)
        } else {
            parse_frag_from(frag, end, true, node, Some(text))
        }
    } else {
        Err(ParseFlakeError::Unrecognized)
    }
}

/// The whole descriptor: repo up to the first `#`; within the rest, the
/// host override after the last `@`; the fragment in between.
pub open spec fn parse_target_spec(s: Seq<char>) -> Result<TargetView, ParseFlakeError> {
    let h = find_char_from(s, '#', 0);
    if h >= s.len() {
        Ok(TargetView { repo: s, node: None, profile: None, host: None })
    } else {
        let rest = s.subrange(h + 1, s.len() as int);
        let a = find_last(rest, '@');
        let frag = if a < 0 {
            rest
        } else {
            rest.subrange(0, a)
        };
        let host = if a < 0 {
            None
        } else {
            Some(rest.subrange(a + 1, rest.len() as int))
        };
        match parse_frag_from(frag, 0, false, None, None) {
            Ok(np) => Ok(TargetView { repo: s.subrange(0, h), node: np.0, profile: np.1, host }),
            Err(e) => Err(e),
        }
    }
}

fn parse_fragment(frag: &str) -> (r: Result<(Option<String>, Option<String>), ParseFlakeError>)
    ensures
        match r {
            Ok(np) => parse_frag_from(frag@, 0, false, None, None) == Ok::<
                (Option<Seq<char>>, Option<Seq<char>>),
                ParseFlakeError,
            >((opt_str_view(np.0), opt_str_view(np.1))),
            Err(e) => parse_frag_from(frag@, 0, false, None, None) == Err::<
                (Option<Seq<char>>, Option<Seq<char>>),
                ParseFlakeError,
            >(e),
        },
{
    let n = frag.unicode_len();
    let mut i: usize = 0;
    let mut node_over = false;
    let mut node: Option<String> = None;
    let mut profile: Option<String> = None;
    while i < n
        invariant
            i <= n,
            n == frag@.len(),
            parse_frag_from(frag@, 0, false, None, None) == parse_frag_from(
                frag@,
                i as int,
                node_over,
                opt_str_view(node),
                opt_str_view(profile),
            ),
        decreases n - i,
    {
        let c = frag.get_char(i);
        if c == '.' {
            if node_over {
                return Err(ParseFlakeError::PathTooLong);
            }
            node_over = true;
            i = i + 1;
        } else {
            let text: String;
            let next: usize;
            if c == '"' {
                proof {
                    lemma_find_char_from_bounds(frag@, '"', i as int + 1);
                }
                let close = find_char(frag, '"', i + 1);
                if close >= n {
                    return Err(ParseFlakeError::Unrecognized);
                }
                text = String::from_str(frag.substring_char(i + 1, close));
                next = close + 1;
            } else if is_bare_char(c) {
                proof {
                    lemma_scan_bare_bounds(frag@, i as int);
                    lemma_scan_bare_bounds(frag@, i as int + 1);
                }
                let end = scan_bare_exec(frag, i);
                text = String::from_str(frag.substring_char(i, end));
                next = end;
            } else {
                return Err(ParseFlakeError::Unrecognized);
            }
            proof {
                if frag@[i as int] == '"' {
                    assert(next == past(i as int, find_char_from(frag@, '"', i as int + 1) + 1));
                } else {
                    assert(next == step_to(
                        frag@.len() as int,
                        i as int,
                        scan_bare(frag@, i as int),
                    ));
                }
            }
            if next < n && frag.get_char(next) != '.' {
                return Err(ParseFlakeError::Unrecognized);
            }
            if !node_over {
                node = Some(text);
            } else {
                profile = Some(text);
            }
            i = next;
        }
    }
    Ok((node, profile))
}

pub proof fn lemma_scan_bare_is(s: Seq<char>, from: int, pos: int)
    requires
        0 <= from <= pos <= s.len(),
        forall|j: int| from <= j < pos ==> is_bare_char_spec(s[j]),
        pos < s.len() ==> !is_bare_char_spec(s[pos]),
    ensures
        scan_bare(s, from) == pos,
    decreases pos - from,
{
    if from < pos {
        lemma_scan_bare_is(s, from + 1, pos);
    }
}

pub proof fn lemma_find_last_is(s: Seq<char>, c: char, pos: int)
    requires
        -1 <= pos < s.len(),
        pos >= 0 ==> s[pos] == c,
        forall|j: int| pos < j < s.len() ==> s[j] != c,
    ensures
        find_last(s, c) == pos,
    decreases s.len(),
{
    if s.len() > 0 && s[s.len() - 1] != c {
        assert(forall|j: int| 0 <= j < s.len() - 1 ==> s.drop_last()[j] == s[j]);
        lemma_find_last_is(s.drop_last(), c, pos);
    }
}

/// Parses a target descriptor.
pub fn parse_flake(flake: &str) -> (r: Result<DeployFlake, ParseFlakeError>)
    ensures
        match r {
            Ok(t) => parse_target_spec(flake@) == Ok::<TargetView, ParseFlakeError>(t@),
            Err(e) => parse_target_spec(flake@) == Err::<TargetView, ParseFlakeError>(e),
        },
{
    let n = flake.unicode_len();
    proof {
        lemma_find_char_from_bounds(flake@, '#', 0);
    }
    let h = find_char(flake, '#', 0);
    if h >= n {
        return Ok(
            DeployFlake {
                repo: String::from_str(flake),
                node: None,
                profile: None,
                host: None,
            },
        );
    }
    let rest = flake.substring_char(h + 1, n);
    proof {
        lemma_find_last_bounds(rest@, '@');
    }
    let (frag, host): (&str, Option<String>) = match find_last_exec(rest, '@') {
        Some(a) => {
            let host_str = rest.substring_char(a + 1, rest.unicode_len());
            (rest.substring_char(0, a), Some(String::from_str(host_str)))
        },
        None => (rest, None),
    };
    match parse_fragment(frag) {
        Ok((node, profile)) => Ok(
            DeployFlake { repo: String::from_str(flake.substring_char(0, h)), node, profile, host },
        ),
        Err(e) => Err(e),
    }
}

// --- Rendering and the parse round trip -----------------------------------

/// Every character of `s` may stand in a bare identifier.
pub open spec fn all_bare(s: Seq<char>) -> bool {
    forall|i: int| 0 <= i < s.len() ==> is_bare_char_spec(s[i])
}

/// An identifier, rendered: as it is when bare, in quotes otherwise.
pub open spec fn render_ident_spec(s: Seq<char>) -> Seq<char> {
    if all_bare(s) {
        s
    } else {
        seq!['"'] + s + seq!['"']
    }
}

/// The rendered form of a target descriptor.
pub open spec fn render_target_spec(t: TargetView) -> Seq<char> {
    t.repo + (match t.node {
        Some(n) => seq!['#'] + render_ident_spec(n) + (match t.profile {
            Some(p) => seq!['.'] + render_ident_spec(p),
            None => Seq::<char>::empty(),
        }),
        None => Seq::<char>::empty(),
    }) + (match t.host {
        Some(h) => seq!['@'] + h,
        None => Seq::<char>::empty(),
    })
}

/// An identifier that the grammar can carry in either form: nonempty,
/// without a quote (which would end a quoted element early) and without an
/// `@` (which the host split would claim).
pub open spec fn canonical_ident(s: Seq<char>) -> bool {
    &&& s.len() > 0
    &&& forall|i: int| 0 <= i < s.len() ==> s[i] != '"' && s[i] != '@'
}

/// The canonical targets: a repo without `#`, identifiers as above, a
/// profile only beside a node, a host override only beside a node, and a
/// nonempty host without `@`.
pub open spec fn canonical_target(t: TargetView) -> bool {
    &&& forall|i: int| 0 <= i < t.repo.len() ==> t.repo[i] != '#'
    &&& (t.profile is Some ==> t.node is Some)
    &&& (t.host is Some ==> t.node is Some)
    &&& (match t.node {
        Some(n) => canonical_ident(n),
        None => true,
    })
    &&& (match t.profile {
        Some(p) => canonical_ident(p),
        None => true,
    })
    &&& (match t.host {
        Some(h) => h.len() > 0 && forall|i: int| 0 <= i < h.len() ==> h[i] != '@',
        None => true,
    })
}

fn all_bare_exec(s: &str) -> (r: bool)
    ensures
        r == all_bare(s@),
{
    let n = s.unicode_len();
    let mut i: usize = 0;
    while i < n
        invariant
            i <= n,
            n == s@.len(),
            forall|j: int| 0 <= j < i ==> is_bare_char_spec(s@[j]),
        decreases n - i,
    {
        if !is_bare_char(s.get_char(i)) {
            return false;
        }
        i = i + 1;
    }
    true
}

/// Renders one identifier, quoting it when it is not bare.
pub fn render_ident(s: &str) -> (r: String)
    ensures
        r@ == render_ident_spec(s@),
{
    proof {
        reveal_strlit("\"");
    }
    if all_bare_exec(s) {
        String::from_str(s)
    } else {
        let r = String::from_str("\"").concat(s).concat("\"");
        proof {
            assert(r@ =~= render_ident_spec(s@));
        }
        r
    }
}

/// Renders a target descriptor in its canonical written form.
pub fn render_target(t: &DeployFlake) -> (r: String)
    ensures
        r@ == render_target_spec(t@),
{
    proof {
        reveal_strlit("#");
        reveal_strlit(".");
        reveal_strlit("@");
    }
    let mut r = t.repo.clone();
    match &t.node {
        Some(n) => {
            r = r.concat("#");
            let ni = render_ident(n.as_str());
            r = r.concat(ni.as_str());
            match &t.profile {
                Some(p) => {
                    r = r.concat(".");
                    let pi = render_ident(p.as_str());
                    r = r.concat(pi.as_str());
                },
                None => {},
            }
        },
        None => {},
    }
    match &t.host {
        Some(h) => {
            r = r.concat("@");
            r = r.concat(h.as_str());
        },
        None => {},
    }
    proof {
        assert(r@ =~= render_target_spec(t@));
    }
    r
}

/// One grammar element inside a fragment: if the characters from `i` spell
/// the rendered form of a canonical identifier and end at a dot or at the
/// fragment's end, the parser consumes exactly them and records the
/// identifier.
proof fn lemma_parse_element(
    frag: Seq<char>,
    i: int,
    x: Seq<char>,
    node_over: bool,
    node: Option<Seq<char>>,
    profile: Option<Seq<char>>,
)
    requires
        canonical_ident(x),
        0 <= i,
        i + render_ident_spec(x).len() <= frag.len(),
        frag.subrange(i, i + render_ident_spec(x).len() as int) =~= render_ident_spec(x),
        i + render_ident_spec(x).len() < frag.len() ==> frag[i + render_ident_spec(x).len()]
            == '.',
    ensures
        parse_frag_from(frag, i, node_over, node, profile) == if !node_over {
            parse_frag_from(
                frag,
                i + render_ident_spec(x).len(),
                false,
                Some(x),
                profile,
            )
        } else {
            parse_frag_from(frag, i + render_ident_spec(x).len(), true, node, Some(x))
        },
{
    let rx = render_ident_spec(x);
    let end = i + rx.len();
    let sub = frag.subrange(i, end as int);
    assert(forall|k: int| 0 <= k < rx.len() ==> frag[i + k] == #[trigger] rx[k]) by {
        assert(forall|k: int| 0 <= k < rx.len() ==> frag[i + k] == #[trigger] sub[k]);
    }
    if all_bare(x) {
        assert(rx =~= x);
        assert forall|j: int| i <= j < end implies frag[j] == x[j - i] && is_bare_char_spec(
            frag[j],
        ) by {
            assert(frag[i + (j - i)] == rx[j - i]);
        }
        assert(frag[i] == x[0]);
        assert(is_bare_char_spec(frag[i]));
        assert(frag[i] != '.' && frag[i] != '"');
        lemma_scan_bare_is(frag, i, end);
        assert(step_to(frag.len() as int, i, scan_bare(frag, i)) == end);
        assert(frag.subrange(i, end) =~= x);
    } else {
        assert(rx.len() == x.len() + 2);
        assert(frag[i + 0] == rx[0]);
        assert(rx[0] == '"');
        assert forall|j: int| i + 1 <= j < end - 1 implies frag[j] == x[j - (i + 1)] by {
            assert(frag[i + (j - i)] == rx[j - i]);
        }
        assert(frag[i + (rx.len() - 1)] == rx[rx.len() - 1]);
        assert(rx[rx.len() - 1] == '"');
        assert forall|j: int| i + 1 <= j < end - 1 implies frag[j] != '"' by {
            assert(x[j - (i + 1)] != '"');
        }
        lemma_find_char_from_is(frag, '"', i + 1, end - 1);
        assert(find_char_from(frag, '"', i + 1) == end - 1);
        assert(past(i, end) == end);
        assert(frag.subrange(i + 1, end - 1) =~= x);
    }
}

/// Rendering a canonical target and parsing the result yields the same
/// target: controller-side descriptors survive the written form.
#[verifier::rlimit(60)]
pub proof fn lemma_target_round_trip(t: TargetView)
    requires
        canonical_target(t),
    ensures
        parse_target_spec(render_target_spec(t)) == Ok::<TargetView, ParseFlakeError>(t),
{
    let s = render_target_spec(t);
    match t.node {
        None => {
            assert(s =~= t.repo);
            lemma_find_char_from_is(s, '#', 0, s.len() as int);
            assert(parse_target_spec(s) == Ok::<TargetView, ParseFlakeError>(
                TargetView { repo: s, node: None, profile: None, host: None },
            ));
        },
        Some(n) => {
            let rn = render_ident_spec(n);
            let frag = match t.profile {
                Some(p) => rn + seq!['.'] + render_ident_spec(p),
                None => rn,
            };
            let tail = match t.host {
                Some(h) => seq!['@'] + h,
                None => Seq::<char>::empty(),
            };
            assert(s =~= t.repo + seq!['#'] + frag + tail);
            // The '#' separator is the first '#': the repo has none.
            assert(forall|j: int| 0 <= j < t.repo.len() ==> s[j] != '#');
            assert(s[t.repo.len() as int] == '#');
            lemma_find_char_from_is(s, '#', 0, t.repo.len() as int);
            let rest = s.subrange(t.repo.len() as int + 1, s.len() as int);
            assert(rest =~= frag + tail);
            assert(s.subrange(0, t.repo.len() as int) =~= t.repo);
            // No '@' inside the fragment.
            assert(forall|j: int| 0 <= j < frag.len() ==> frag[j] != '@') by {
                lemma_render_no_at(n);
                if t.profile is Some {
                    lemma_render_no_at(t.profile->0);
                }
            }
            match t.host {
                None => {
                    assert(rest =~= frag);
                    lemma_find_last_is(rest, '@', -1);
                    lemma_parse_fragment_of(frag, t);
                    assert(parse_target_spec(s) == Ok::<TargetView, ParseFlakeError>(
                        TargetView {
                            repo: s.subrange(0, t.repo.len() as int),
                            node: t.node,
                            profile: t.profile,
                            host: None,
                        },
                    ));
                },
                Some(h) => {
                    assert(rest[frag.len() as int] == '@');
                    assert(forall|j: int| frag.len() < j < rest.len() ==> rest[j] == h[j - frag.len()
                        - 1]);
                    lemma_find_last_is(rest, '@', frag.len() as int);
                    assert(rest.subrange(0, frag.len() as int) =~= frag);
                    assert(rest.subrange(frag.len() as int + 1, rest.len() as int) =~= h);
                    lemma_parse_fragment_of(frag, t);
                },
            }
        },
    }
}

/// A rendered canonical identifier holds no `@`.
proof fn lemma_render_no_at(x: Seq<char>)
    requires
        canonical_ident(x),
    ensures
        forall|j: int| 0 <= j < render_ident_spec(x).len() ==> render_ident_spec(x)[j] != '@',
{
    let rx = render_ident_spec(x);
    if !all_bare(x) {
        assert(forall|j: int| 0 <= j < rx.len() ==> rx[j] == '"' || rx[j] == x[j - 1]);
    }
}

/// The fragment rendered from a canonical target parses back to its node
/// and profile.
proof fn lemma_parse_fragment_of(frag: Seq<char>, t: TargetView)
    requires
        canonical_target(t),
        t.node is Some,
        frag == match t.profile {
            Some(p) => render_ident_spec(t.node->0) + seq!['.'] + render_ident_spec(p),
            None => render_ident_spec(t.node->0),
        },
    ensures
        parse_frag_from(frag, 0, false, None, None) == Ok::<
            (Option<Seq<char>>, Option<Seq<char>>),
            ParseFlakeError,
        >((t.node, t.profile)),
{
    let n = t.node->0;
    let rn = render_ident_spec(n);
    match t.profile {
        None => {
            assert(frag.subrange(0, rn.len() as int) =~= rn);
            lemma_parse_element(frag, 0, n, false, None, None);
        },
        Some(p) => {
            let rp = render_ident_spec(p);
            assert(frag.subrange(0, rn.len() as int) =~= rn);
            assert(frag[rn.len() as int] == '.');
            lemma_parse_element(frag, 0, n, false, None, None);
            // After the node element the parser stands on the dot.
            assert(parse_frag_from(frag, rn.len() as int, false, Some(n), None)
                == parse_frag_from(frag, rn.len() as int + 1, true, Some(n), None));
            assert(frag.subrange(rn.len() as int + 1, frag.len() as int) =~= rp);
            assert(frag.subrange(rn.len() as int + 1, rn.len() + 1 + rp.len() as int) =~= rp);
            lemma_parse_element(frag, rn.len() as int + 1, p, true, Some(n), None);
            assert(parse_frag_from(frag, frag.len() as int, true, Some(n), Some(p)) == Ok::<
                (Option<Seq<char>>, Option<Seq<char>>),
                ParseFlakeError,
            >((Some(n), Some(p))));
        },
    }
}

} // verus!
