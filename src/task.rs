use vstd::prelude::*;

use crate::result::RobloxStudioError;

verus! {

/// A task that can be performed by Roblox Studio.
#[derive(Debug, Clone, Copy, PartialEq, Eq, Structural)]
pub enum RobloxStudioTask {
    EditPlace,
    EditFile,
    StartServer,
    StartClient,
}

/// Unicode `White_Space`, the set of characters that `str::trim` removes.
pub open spec fn is_white(c: char) -> bool {
    ('\u{9}' <= c && c <= '\u{d}') || c == ' ' || c == '\u{85}' || c == '\u{a0}' || c
        == '\u{1680}' || ('\u{2000}' <= c && c <= '\u{200a}') || c == '\u{2028}' || c
        == '\u{2029}' || c == '\u{202f}' || c == '\u{205f}' || c == '\u{3000}'
}

/// `s` without its leading whitespace.
pub open spec fn trim_start(s: Seq<char>) -> Seq<char>
    decreases s.len(),
{
    if s.len() > 0 && is_white(s[0]) {
        trim_start(s.drop_first())
    } else {
        s
    }
}

/// `s` without its trailing whitespace.
pub open spec fn trim_end(s: Seq<char>) -> Seq<char>
    decreases s.len(),
{
    if s.len() > 0 && is_white(s.last()) {
        trim_end(s.drop_last())
    } else {
        s
    }
}

/// `s` without leading and trailing whitespace.
pub open spec fn trim(s: Seq<char>) -> Seq<char> {
    trim_end(trim_start(s))
}

/// ASCII lower case of one character; every other character is kept.
pub open spec fn lower(c: char) -> char {
    if 'A' <= c && c <= 'Z' {
        ((c as u32) + 32) as char
    } else {
        c
    }
}

pub open spec fn lowercase(s: Seq<char>) -> Seq<char> {
    s.map_values(|c: char| lower(c))
}

/// The two lower-case words that make up the compact name of a task.
pub open spec fn words(t: RobloxStudioTask) -> (Seq<char>, Seq<char>) {
    match t {
        RobloxStudioTask::EditPlace => ("edit"@, "place"@),
        RobloxStudioTask::EditFile => ("edit"@, "file"@),
        RobloxStudioTask::StartServer => ("start"@, "server"@),
        RobloxStudioTask::StartClient => ("start"@, "client"@),
    }
}

/// `x` is the compact name of `t`, its words joined directly, by `-` or by `_`.
pub open spec fn is_spelling(x: Seq<char>, t: RobloxStudioTask) -> bool {
    let (a, b) = words(t);
    x == a + b || x == a + seq!['-'] + b || x == a + seq!['_'] + b
}

/// The task whose spelling `x` is, if any.
pub open spec fn task_of(x: Seq<char>) -> Option<RobloxStudioTask> {
    if is_spelling(x, RobloxStudioTask::EditPlace) {
        Some(RobloxStudioTask::EditPlace)
    } else if is_spelling(x, RobloxStudioTask::EditFile) {
        Some(RobloxStudioTask::EditFile)
    } else if is_spelling(x, RobloxStudioTask::StartServer) {
        Some(RobloxStudioTask::StartServer)
    } else if is_spelling(x, RobloxStudioTask::StartClient) {
        Some(RobloxStudioTask::StartClient)
    } else {
        None
    }
}

/// What `RobloxStudioTask::parse` returns on the text `s`.
pub open spec fn parse_text(s: Seq<char>) -> Option<RobloxStudioTask> {
    task_of(lowercase(trim(s)))
}

/// The PascalCase name under which the application knows a task.
pub open spec fn task_name(t: RobloxStudioTask) -> Seq<char> {
    match t {
        RobloxStudioTask::EditPlace => "EditPlace"@,
        RobloxStudioTask::EditFile => "EditFile"@,
        RobloxStudioTask::StartServer => "StartServer"@,
        RobloxStudioTask::StartClient => "StartClient"@,
    }
}

fn is_white_char(c: char) -> (r: bool)
    ensures
        r == is_white(c),
{
    ('\u{9}' <= c && c <= '\u{d}') || c == ' ' || c == '\u{85}' || c == '\u{a0}' || c
        == '\u{1680}' || ('\u{2000}' <= c && c <= '\u{200a}') || c == '\u{2028}' || c
        == '\u{2029}' || c == '\u{202f}' || c == '\u{205f}' || c == '\u{3000}'
}

fn lower_char(c: char) -> (r: char)
    ensures
        r == lower(c),
{
    if 'A' <= c && c <= 'Z' {
        ((c as u32) + 32) as u8 as char
    } else {
        c
    }
}

proof fn lemma_trim_start_step(s: Seq<char>, i: int)
    requires
        0 <= i < s.len(),
        is_white(s[i]),
    ensures
        trim_start(s.subrange(i, s.len() as int)) == trim_start(s.subrange(i + 1, s.len() as int)),
{
    assert(s.subrange(i, s.len() as int).drop_first() =~= s.subrange(i + 1, s.len() as int));
}

proof fn lemma_trim_end_step(s: Seq<char>, i: int, j: int)
    requires
        0 <= i < j <= s.len(),
        is_white(s[j - 1]),
    ensures
        trim_end(s.subrange(i, j)) == trim_end(s.subrange(i, j - 1)),
{
    assert(s.subrange(i, j).drop_last() =~= s.subrange(i, j - 1));
}

/// The characters of `s`, trimmed and in ASCII lower case.
fn folded_chars(s: &str) -> (r: Vec<char>)
    ensures
        r@ == lowercase(trim(s@)),
{
    let n = s.unicode_len();
    let mut i: usize = 0;
    assert(s@ =~= s@.subrange(0, n as int));
    while i < n && is_white_char(s.get_char(i))
        invariant
            n == s@.len(),
            i <= n,
            trim_start(s@) == trim_start(s@.subrange(i as int, n as int)),
        decreases n - i,
    {
        proof {
            lemma_trim_start_step(s@, i as int);
        }
        i = i + 1;
    }
    assert(trim_start(s@) == s@.subrange(i as int, n as int));
    let mut j: usize = n;
    while j > i && is_white_char(s.get_char(j - 1))
        invariant
            n == s@.len(),
            i <= j <= n,
            trim(s@) == trim_end(s@.subrange(i as int, j as int)),
        decreases j,
    {
        proof {
            lemma_trim_end_step(s@, i as int, j as int);
        }
        j = j - 1;
    }
    assert(trim(s@) == s@.subrange(i as int, j as int));
    let mut r: Vec<char> = Vec::new();
    let mut k: usize = i;
    while k < j
        invariant
            n == s@.len(),
            i <= k <= j <= n,
            r@ =~= lowercase(s@.subrange(i as int, k as int)),
        decreases j - k,
    {
        let c = lower_char(s.get_char(k));
        r.push(c);
        k = k + 1;
    }
    r
}

/// Whether `w` stands in `x` from index `start` on.
fn stands_at(x: &Vec<char>, start: usize, w: &str) -> (r: bool)
    ensures
        r == (start + w@.len() <= x@.len() && x@.subrange(start as int, start + w@.len()) == w@),
{
    let n = w.unicode_len();
    if start > x.len() || n > x.len() - start {
        return false;
    }
    let xl = x.len();
    let mut i: usize = 0;
    while i < n
        invariant
            n == w@.len(),
            xl == x@.len(),
            start + n <= x@.len(),
            i <= n,
            forall|k: int| 0 <= k < i ==> x@[start + k] == w@[k],
        decreases n - i,
    {
        if x[start + i] != w.get_char(i) {
            assert(x@.subrange(start as int, start + n)[i as int] != w@[i as int]);
            return false;
        }
        i = i + 1;
    }
    assert(x@.subrange(start as int, start + n) =~= w@);
    true
}

/// Whether `x` is `a` and `b` joined directly, by `-` or by `_`.
fn spells(x: &Vec<char>, a: &str, b: &str) -> (r: bool)
    ensures
        r == (x@ == a@ + b@ || x@ == a@ + seq!['-'] + b@ || x@ == a@ + seq!['_'] + b@),
{
    let la = a.unicode_len();
    let lb = b.unicode_len();
    let n = x.len();
    let ghost joined = a@ + b@;
    let ghost dashed = a@ + seq!['-'] + b@;
    let ghost under = a@ + seq!['_'] + b@;
    if !stands_at(x, 0, a) {
        proof {
            assert(joined.subrange(0, la as int) =~= a@);
            assert(dashed.subrange(0, la as int) =~= a@);
            assert(under.subrange(0, la as int) =~= a@);
        }
        return false;
    }
    if n >= la && n - la == lb {
        let r = stands_at(x, la, b);
        proof {
            if r {
                assert(x@ =~= joined);
            } else {
                assert(joined.subrange(la as int, la + lb) =~= b@);
            }
        }
        return r;
    }
    if n > la && n - la - 1 == lb && (x[la] == '-' || x[la] == '_') {
        let r = stands_at(x, la + 1, b);
        proof {
            if r {
                if x@[la as int] == '-' {
                    assert(x@ =~= dashed);
                } else {
                    assert(x@ =~= under);
                }
            } else {
                assert(dashed.subrange(la + 1, la + 1 + lb) =~= b@);
                assert(under.subrange(la + 1, la + 1 + lb) =~= b@);
            }
        }
        return r;
    }
    proof {
        if n == la + 1 + lb {
            assert(dashed[la as int] == '-');
            assert(under[la as int] == '_');
        }
    }
    false
}

impl RobloxStudioTask {
    /// Tries to parse a task from a string.
    ///
    /// Surrounding whitespace is ignored, letters are matched regardless of
    /// ASCII case, and the two words of a name may be joined directly, by `-`
    /// or by `_` (`editplace`, `Edit-Place`, `EDIT_PLACE`).
    pub fn parse(s: &str) -> (r: Option<Self>)
        ensures
            r == parse_text(s@),
    {
        let x = folded_chars(s);
        if spells(&x, "edit", "place") {
            Some(RobloxStudioTask::EditPlace)
        } else if spells(&x, "edit", "file") {
            Some(RobloxStudioTask::EditFile)
        } else if spells(&x, "start", "server") {
            Some(RobloxStudioTask::StartServer)
        } else if spells(&x, "start", "client") {
            Some(RobloxStudioTask::StartClient)
        } else {
            None
        }
    }

    /// Returns the name of the task, always in PascalCase.
    pub fn name(self) -> (r: &'static str)
        ensures
            r@ == task_name(self),
    {
        match self {
            RobloxStudioTask::EditPlace => "EditPlace",
            RobloxStudioTask::EditFile => "EditFile",
            RobloxStudioTask::StartServer => "StartServer",
            RobloxStudioTask::StartClient => "StartClient",
        }
    }
}

proof fn lemma_reveal_words()
    ensures
        "edit"@ =~= seq!['e', 'd', 'i', 't'],
        "place"@ =~= seq!['p', 'l', 'a', 'c', 'e'],
        "file"@ =~= seq!['f', 'i', 'l', 'e'],
        "start"@ =~= seq!['s', 't', 'a', 'r', 't'],
        "server"@ =~= seq!['s', 'e', 'r', 'v', 'e', 'r'],
        "client"@ =~= seq!['c', 'l', 'i', 'e', 'n', 't'],
{
    reveal_strlit("edit");
    reveal_strlit("place");
    reveal_strlit("file");
    reveal_strlit("start");
    reveal_strlit("server");
    reveal_strlit("client");
}

proof fn lemma_spellings_distinct(x: Seq<char>, t1: RobloxStudioTask, t2: RobloxStudioTask)
    requires
        is_spelling(x, t1),
        is_spelling(x, t2),
    ensures
        t1 == t2,
{
    lemma_reveal_words();
    if t1 != t2 {
        if x.len() == 9 {
            assert(x[4] == 'p' || x[4] == '-' || x[4] == '_' || x[4] == 'f');
        }
        if x.len() >= 11 {
            assert(x[5] == 's' || x[5] == 'c' || x[6] == 's' || x[6] == 'c');
        }
    }
}

/// A text parses to `t` exactly when, trimmed and in ASCII lower case, it is
/// one of the spellings of `t`: its two words joined directly, by `-` or by
/// `_`. Every other text parses to nothing.
pub proof fn lemma_parse_spellings(s: Seq<char>, t: RobloxStudioTask)
    ensures
        parse_text(s) == Some(t) <==> is_spelling(lowercase(trim(s)), t),
        parse_text(s) is None <==> forall|u: RobloxStudioTask|
            !is_spelling(lowercase(trim(s)), u),
{
    let x = lowercase(trim(s));
    if is_spelling(x, t) {
        let r = parse_text(s);
        assert(r is Some);
        lemma_spellings_distinct(x, r->0, t);
    }
    if parse_text(s) is None {
        assert forall|u: RobloxStudioTask| !is_spelling(x, u) by {
            match u {
                RobloxStudioTask::EditPlace => {},
                RobloxStudioTask::EditFile => {},
                RobloxStudioTask::StartServer => {},
                RobloxStudioTask::StartClient => {},
            }
        }
    }
}

proof fn lemma_lower_keeps_white(c: char)
    ensures
        is_white(lower(c)) == is_white(c),
{
}

proof fn lemma_trim_start_lowercase(s: Seq<char>)
    ensures
        lowercase(trim_start(s)) == trim_start(lowercase(s)),
    decreases s.len(),
{
    if s.len() == 0 {
        assert(lowercase(s) =~= s);
    } else {
        lemma_lower_keeps_white(s[0]);
        assert(lowercase(s)[0] == lower(s[0]));
        if is_white(s[0]) {
            assert(lowercase(s).drop_first() =~= lowercase(s.drop_first()));
            lemma_trim_start_lowercase(s.drop_first());
        }
    }
}

proof fn lemma_trim_end_lowercase(s: Seq<char>)
    ensures
        lowercase(trim_end(s)) == trim_end(lowercase(s)),
    decreases s.len(),
{
    if s.len() == 0 {
        assert(lowercase(s) =~= s);
    } else {
        lemma_lower_keeps_white(s.last());
        assert(lowercase(s).last() == lower(s.last()));
        if is_white(s.last()) {
            assert(lowercase(s).drop_last() =~= lowercase(s.drop_last()));
            lemma_trim_end_lowercase(s.drop_last());
        }
    }
}

/// Texts that differ only in ASCII case parse to the same task, or both to
/// nothing.
pub proof fn lemma_parse_ignores_case(s: Seq<char>, t: Seq<char>)
    requires
        lowercase(s) == lowercase(t),
    ensures
        parse_text(s) == parse_text(t),
{
    lemma_trim_start_lowercase(s);
    lemma_trim_start_lowercase(t);
    lemma_trim_end_lowercase(trim_start(s));
    lemma_trim_end_lowercase(trim_start(t));
}

/// The name of every task parses back to that task.
pub proof fn lemma_name_parses(t: RobloxStudioTask)
    ensures
        parse_text(task_name(t)) == Some(t),
{
    reveal_strlit("EditPlace");
    reveal_strlit("EditFile");
    reveal_strlit("StartServer");
    reveal_strlit("StartClient");
    lemma_reveal_words();
    let n = task_name(t);
    assert(n.len() > 0 && !is_white(n[0]));
    assert(trim_start(n) == n);
    assert(!is_white(n.last()));
    assert(trim(n) == n);
    let (a, b) = words(t);
    assert(lowercase(n) =~= a + b);
    assert(is_spelling(lowercase(n), t));
    lemma_parse_spellings(n, t);
}

impl std::str::FromStr for RobloxStudioTask {
    type Err = RobloxStudioError;

    /// Parses a task as `parse` does, failing with `UnknownTask` on text that
    /// names none.
    fn from_str(s: &str) -> (r: Result<Self, RobloxStudioError>)
        ensures
            parse_text(s@) matches Some(t) ==> r == Ok::<Self, RobloxStudioError>(t),
            parse_text(s@) is None ==> (r matches Err(RobloxStudioError::UnknownTask(e)) && e@
                == s@),
    {
        match Self::parse(s) {
            Some(t) => Ok(t),
            None => Err(RobloxStudioError::UnknownTask(s.to_owned())),
        }
    }
}

} // verus!
