//! What a native build reports about linking: the static libraries that a
//! `staticlib` needs, read from cargo's `native-static-libs` note, and the
//! search paths that build scripts added.
use vstd::prelude::*;
use crate::cli::CliError;
use crate::text::{chars_of, rust_lines, string_of, views};

verus! {

/// The libraries and search paths that linking a native build needs.
#[derive(Debug, PartialEq, Eq)]
pub struct NativeLinkMetadata {
    pub native_static_libraries: Vec<String>,
    pub native_link_search_paths: Vec<String>,
}

/// A build-script message of cargo: why it was sent and the paths it links.
#[derive(Debug, PartialEq, Eq)]
pub struct BuildScriptMessage {
    pub reason: String,
    pub linked_paths: Vec<String>,
}

/// The escape character that starts an ANSI sequence.
pub open spec fn is_escape(c: char) -> bool {
    c == '\u{1b}'
}

/// Whether `c` ends an ANSI control sequence (`@` to `~`).
pub open spec fn is_final(c: char) -> bool {
    '\u{40}' <= c && c <= '\u{7e}'
}

/// The index of the first character of `s` that ends a control sequence,
/// or `s.len()` when none does.
pub open spec fn first_final(s: Seq<char>) -> int
    decreases s.len(),
{
    if s.len() == 0 {
        0
    } else if is_final(s[0]) {
        0
    } else {
        1 + first_final(s.skip(1))
    }
}

/// `s` without its ANSI escapes. An escape and the character after it are
/// dropped; when that character is `[`, everything up to and including the
/// character that ends the sequence is dropped too, or the rest of `s` if
/// none does.
pub open spec fn strip_ansi(s: Seq<char>) -> Seq<char>
    decreases s.len(),
{
    if s.len() == 0 {
        Seq::empty()
    } else if !is_escape(s[0]) {
        seq![s[0]] + strip_ansi(s.skip(1))
    } else if s.len() == 1 {
        Seq::empty()
    } else if s[1] != '[' {
        strip_ansi(s.skip(2))
    } else {
        let rest = s.skip(2);
        let j = first_final(rest);
        proof {
            lemma_first_final(rest);
        }
        if j < rest.len() {
            strip_ansi(rest.skip(j + 1))
        } else {
            Seq::empty()
        }
    }
}

/// Where the first final character of `s` lies.
pub proof fn lemma_first_final(s: Seq<char>)
    ensures
        0 <= first_final(s) <= s.len(),
        first_final(s) < s.len() ==> is_final(s[first_final(s)]),
        forall|k: int| 0 <= k < first_final(s) ==> !is_final(#[trigger] s[k]),
    decreases s.len(),
{
    if s.len() > 0 && !is_final(s[0]) {
        lemma_first_final(s.skip(1));
        assert forall|k: int| 0 <= k < first_final(s) implies !is_final(#[trigger] s[k]) by {
            if k > 0 {
                assert(s.skip(1)[k - 1] == s[k]);
            }
        }
    }
}

fn strip_ansi_escape_codes(input: &str) -> (res: String)
    ensures
        res@ == strip_ansi(input@),
{
    let cs = chars_of(input);
    let mut output = String::new();
    let mut i: usize = 0;
    proof {
        assert(cs@.skip(0) =~= cs@);
    }
    while i < cs.len()
        invariant
            cs@ == input@,
            i <= cs@.len(),
            output@ + strip_ansi(cs@.skip(i as int)) == strip_ansi(cs@),
        decreases cs.len() - i,
    {
        let ghost s = cs@.skip(i as int);
        let character = cs[i];
        if character == '\u{1b}' {
            if i + 1 < cs.len() && cs[i + 1] == '[' {
                let mut j: usize = i + 2;
                proof {
                    assert(s.skip(2) =~= cs@.skip(i + 2));
                    assert(cs@.skip(j as int) =~= s.skip(2));
                }
                while j < cs.len() && !('\u{40}' <= cs[j] && cs[j] <= '\u{7e}')
                    invariant
                        i + 2 <= j <= cs@.len(),
                        first_final(cs@.skip(i + 2)) == (j - (i + 2)) + first_final(cs@.skip(j as int)),
                    decreases cs.len() - j,
                {
                    proof {
                        let t = cs@.skip(j as int);
                        assert(t[0] == cs@[j as int]);
                        assert(t.skip(1) =~= cs@.skip(j + 1));
                    }
                    j += 1;
                }
                proof {
                    lemma_first_final(cs@.skip(i + 2));
                    if j < cs.len() {
                        assert(cs@.skip(j as int)[0] == cs@[j as int]);
                        assert(s.skip(2).skip(first_final(s.skip(2)) + 1) =~= cs@.skip(j + 1));
                    } else {
                        assert(cs@.skip(j as int).len() == 0);
                    }
                }
                i = if j < cs.len() { j + 1 } else { cs.len() };
                proof {
                    if j >= cs.len() {
                        assert(cs@.skip(i as int) =~= Seq::<char>::empty());
                    }
                }
            } else {
                if i + 1 < cs.len() {
                    proof {
                        assert(s.skip(2) =~= cs@.skip(i + 2));
                    }
                    i = i + 2;
                } else {
                    i = cs.len();
                    proof {
                        assert(cs@.skip(i as int) =~= Seq::<char>::empty());
                    }
                }
            }
        } else {
            crate::text::push_char(&mut output, character);
            proof {
                assert(s.skip(1) =~= cs@.skip(i + 1));
                assert(output@ + strip_ansi(cs@.skip(i + 1)) =~= (output@.drop_last() + (seq![character] + strip_ansi(s.skip(1)))));
            }
            i += 1;
        }
    }
    proof {
        assert(cs@.skip(i as int) =~= Seq::<char>::empty());
        assert(output@ + Seq::<char>::empty() =~= output@);
    }
    output
}

/// Whether `c` has the Unicode `White_Space` property, as
/// `char::is_whitespace` decides: the ASCII tab, line feed, vertical tab,
/// form feed, carriage return and space, next line (U+0085), no-break
/// space (U+00A0), ogham space mark (U+1680), the spaces U+2000 to U+200A,
/// the line and paragraph separators (U+2028, U+2029), narrow no-break
/// space (U+202F), medium mathematical space (U+205F) and ideographic
/// space (U+3000).
pub open spec fn white_space(c: char) -> bool {
    let n = c as u32;
    ||| 0x9 <= n <= 0xD
    ||| n == 0x20
    ||| n == 0x85
    ||| n == 0xA0
    ||| n == 0x1680
    ||| 0x2000 <= n <= 0x200A
    ||| n == 0x2028
    ||| n == 0x2029
    ||| n == 0x202F
    ||| n == 0x205F
    ||| n == 0x3000
}

/// Whether `c` is white space, as `char::is_whitespace` decides: whether
/// it has the Unicode `White_Space` property.
fn is_whitespace(c: char) -> (res: bool)
    ensures
        res == white_space(c),
{
    let n = c as u32;
    (0x9 <= n && n <= 0xD) || n == 0x20 || n == 0x85 || n == 0xA0 || n == 0x1680 || (0x2000 <= n && n <= 0x200A)
        || n == 0x2028 || n == 0x2029 || n == 0x202F || n == 0x205F || n == 0x3000
}

/// The words of `s` as `split_whitespace` yields them: the longest runs of
/// characters that are not white space, in order.
pub open spec fn words(s: Seq<char>) -> Seq<Seq<char>>
    decreases s.len(),
{
    if s.len() == 0 {
        Seq::empty()
    } else {
        let w = words(s.drop_last());
        let c = s.last();
        if white_space(c) {
            w
        } else if s.len() >= 2 && !white_space(s[s.len() - 2]) {
            w.update(w.len() - 1, w.last().push(c))
        } else {
            w.push(seq![c])
        }
    }
}

proof fn lemma_words_nonempty(s: Seq<char>)
    ensures
        s.len() > 0 && !white_space(s.last()) ==> words(s).len() > 0,
    decreases s.len(),
{
    if s.len() > 0 {
        lemma_words_nonempty(s.drop_last());
    }
}

fn split_words(cs: &Vec<char>, from: usize) -> (res: Vec<String>)
    requires
        from <= cs@.len(),
    ensures
        views(res@) == words(cs@.skip(from as int)),
{
    let ghost s = cs@.skip(from as int);
    let mut out: Vec<String> = Vec::new();
    let mut in_word = false;
    let mut start: usize = from;
    let mut i: usize = from;
    proof {
        assert(s.take(0) =~= Seq::<char>::empty());
    }
    while i < cs.len()
        invariant
            from <= start <= i <= cs@.len(),
            s == cs@.skip(from as int),
            in_word <==> (i > from && !white_space(cs@[i - 1])),
            in_word ==> {
                &&& words(s.take(i - from)).len() > 0
                &&& views(out@) == words(s.take(i - from)).drop_last()
                &&& words(s.take(i - from)).last() == cs@.subrange(start as int, i as int)
            },
            !in_word ==> views(out@) == words(s.take(i - from)),
        decreases cs.len() - i,
    {
        let ghost t = s.take(i - from);
        let ghost t1 = s.take(i + 1 - from);
        proof {
            assert(t1.drop_last() =~= t);
            assert(t1.last() == cs@[i as int]);
            if i > from {
                assert(t1[t1.len() - 2] == cs@[i - 1]);
            }
        }
        let c = cs[i];
        if is_whitespace(c) {
            if in_word {
                let word = string_of(cs, start, i);
                let ghost before = views(out@);
                out.push(word);
                proof {
                    assert(views(out@) =~= before.push(word@));
                    assert(views(out@) =~= words(t));
                }
            }
            in_word = false;
        } else if !in_word {
            let ghost before = views(out@);
            in_word = true;
            start = i;
            proof {
                assert(views(out@) =~= words(t1).drop_last());
                assert(words(t1).last() =~= cs@.subrange(start as int, i + 1));
            }
        } else {
            proof {
                assert(words(t1).drop_last() =~= words(t).drop_last());
                assert(words(t1).last() =~= cs@.subrange(start as int, i + 1));
            }
        }
        i += 1;
    }
    proof {
        assert(s.take(i - from) =~= s);
    }
    if in_word {
        let word = string_of(cs, start, cs.len());
        let ghost before = views(out@);
        out.push(word);
        proof {
            let w = words(s);
            assert(w =~= w.drop_last().push(w.last()));
            assert(views(out@) =~= before.push(word@));
        }
    }
    out
}

/// The note that carries the libraries.
pub open spec fn marker() -> Seq<char> {
    "native-static-libs:"@
}

/// The first index from `from` on at which `pat` occurs in `s`.
pub open spec fn first_match(s: Seq<char>, pat: Seq<char>, from: int) -> Option<int>
    decreases s.len() + 1 - from,
{
    if from < 0 || from + pat.len() > s.len() {
        None
    } else if s.subrange(from, from + pat.len()) == pat {
        Some(from)
    } else {
        first_match(s, pat, from + 1)
    }
}

proof fn lemma_first_match(s: Seq<char>, pat: Seq<char>, from: int)
    ensures
        first_match(s, pat, from) matches Some(i) ==> {
            &&& from <= i
            &&& i + pat.len() <= s.len()
            &&& s.subrange(i, i + pat.len()) == pat
        },
    decreases s.len() + 1 - from,
{
    if !(from < 0 || from + pat.len() > s.len()) && s.subrange(from, from + pat.len()) != pat {
        lemma_first_match(s, pat, from + 1);
    }
}

fn matches_at(cs: &Vec<char>, pat: &Vec<char>, at: usize) -> (res: bool)
    requires
        at + pat@.len() <= cs@.len(),
    ensures
        res == (cs@.subrange(at as int, at + pat@.len()) == pat@),
{
    let bound = cs.len();
    let mut k: usize = 0;
    while k < pat.len()
        invariant
            k <= pat@.len(),
            at + pat@.len() <= bound,
            bound == cs@.len(),
            cs@.subrange(at as int, at + k) == pat@.take(k as int),
        decreases pat.len() - k,
    {
        if cs[at + k] != pat[k] {
            proof {
                assert(cs@.subrange(at as int, at + pat@.len())[k as int] != pat@[k as int]);
            }
            return false;
        }
        proof {
            assert(cs@.subrange(at as int, at + k + 1) =~= cs@.subrange(at as int, at + k).push(cs@[at + k]));
            assert(pat@.take(k + 1) =~= pat@.take(k as int).push(pat@[k as int]));
        }
        k += 1;
    }
    proof {
        assert(pat@.take(k as int) =~= pat@);
    }
    true
}

fn find(cs: &Vec<char>, pat: &Vec<char>) -> (res: Option<usize>)
    ensures
        match res {
            Some(i) => first_match(cs@, pat@, 0) == Some(i as int),
            None => first_match(cs@, pat@, 0) is None,
        },
{
    let n = cs.len();
    let p = pat.len();
    if p > n {
        return None;
    }
    let last = n - p;
    let mut i: usize = 0;
    loop
        invariant
            i <= last,
            last + p == n,
            n == cs@.len(),
            p == pat@.len(),
            first_match(cs@, pat@, 0) == first_match(cs@, pat@, i as int),
        decreases last - i,
    {
        if matches_at(cs, pat, i) {
            return Some(i);
        }
        if i == last {
            proof {
                assert(first_match(cs@, pat@, i + 1) is None);
            }
            return None;
        }
        i += 1;
    }
}

/// The library flags of a line of cargo's output: the words after the
/// first `native-static-libs:` of the line without its ANSI escapes; none
/// when the line has no such note or the note no word.
pub open spec fn parse_flags(line: Seq<char>) -> Option<Seq<Seq<char>>> {
    let s = strip_ansi(line);
    match first_match(s, marker(), 0) {
        None => None,
        Some(m) => {
            let w = words(s.skip(m + marker().len()));
            if w.len() == 0 { None } else { Some(w) }
        },
    }
}

/// The flags of a line of cargo's output that carries the
/// `native-static-libs:` note.
pub fn parse_native_static_libraries(line: &str) -> (res: Option<Vec<String>>)
    ensures
        match res {
            Some(v) => parse_flags(line@) == Some(views(v@)),
            None => parse_flags(line@) is None,
        },
{
    let sanitized = strip_ansi_escape_codes(line);
    let cs = chars_of(sanitized.as_str());
    let pat = chars_of("native-static-libs:");
    match find(&cs, &pat) {
        None => None,
        Some(m) => {
            proof {
                lemma_first_match(cs@, pat@, 0);
                reveal_strlit("native-static-libs:");
                assert(m + pat@.len() <= cs@.len());
            }
            let n = cs.len();
            assert(m + pat@.len() <= n);
            let parsed = split_words(&cs, m + pat.len());
            if parsed.len() == 0 {
                None
            } else {
                Some(parsed)
            }
        },
    }
}

/// The flags of the last line of `ls` that carries any.
pub open spec fn last_flags(ls: Seq<Seq<char>>) -> Option<Seq<Seq<char>>>
    decreases ls.len(),
{
    if ls.len() == 0 {
        None
    } else {
        match parse_flags(ls.last()) {
            Some(f) => Some(f),
            None => last_flags(ls.drop_last()),
        }
    }
}

/// The flags of the last line of `output` that carries the
/// `native-static-libs:` note.
pub fn extract_native_static_libraries(output: &str) -> (res: Option<Vec<String>>)
    ensures
        match res {
            Some(v) => last_flags(rust_lines(output@)) == Some(views(v@)),
            None => last_flags(rust_lines(output@)) is None,
        },
{
    let ls = crate::text::lines(output);
    let mut i: usize = ls.len();
    proof {
        assert(views(ls@).take(i as int) =~= views(ls@));
    }
    while i > 0
        invariant
            i <= ls@.len(),
            views(ls@) == rust_lines(output@),
            last_flags(views(ls@)) == last_flags(views(ls@).take(i as int)),
        decreases i,
    {
        let parsed = parse_native_static_libraries(ls[i - 1].as_str());
        proof {
            let t = views(ls@).take(i as int);
            assert(t.last() == ls@[i - 1]@);
            assert(t.drop_last() =~= views(ls@).take(i - 1));
            assert(last_flags(t) == (match parse_flags(t.last()) {
                Some(f) => Some(f),
                None => last_flags(t.drop_last()),
            }));
        }
        if parsed.is_some() {
            return parsed;
        }
        i -= 1;
    }
    proof {
        assert(views(ls@).take(0) =~= Seq::<Seq<char>>::empty());
    }
    None
}

/// `s` without repeats: each element where it first occurs.
pub open spec fn dedup(s: Seq<Seq<char>>) -> Seq<Seq<char>>
    decreases s.len(),
{
    if s.len() == 0 {
        Seq::empty()
    } else {
        let d = dedup(s.drop_last());
        if d.contains(s.last()) { d } else { d.push(s.last()) }
    }
}

/// The paths linked by the build scripts that ran, in order: the paths of
/// each `build-script-executed` message, one after the other.
pub open spec fn executed_paths(ms: Seq<BuildScriptMessage>) -> Seq<Seq<char>>
    decreases ms.len(),
{
    if ms.len() == 0 {
        Seq::empty()
    } else if ms.last().reason@ == "build-script-executed"@ {
        executed_paths(ms.drop_last()) + views(ms.last().linked_paths@)
    } else {
        executed_paths(ms.drop_last())
    }
}

fn contains_string(v: &Vec<String>, s: &String) -> (res: bool)
    ensures
        res == views(v@).contains(s@),
{
    let mut i: usize = 0;
    while i < v.len()
        invariant
            i <= v@.len(),
            forall|j: int| 0 <= j < i ==> v@[j]@ != s@,
        decreases v.len() - i,
    {
        if v[i] == *s {
            proof {
                assert(views(v@)[i as int] == s@);
            }
            return true;
        }
        i += 1;
    }
    proof {
        if views(v@).contains(s@) {
            let k = choose|k: int| 0 <= k < views(v@).len() && views(v@)[k] == s@;
            assert(v@[k]@ == s@);
        }
    }
    false
}

/// The search paths that the build scripts that ran linked, each once,
/// in the order of first mention.
pub fn link_search_paths(messages: &Vec<BuildScriptMessage>) -> (res: Vec<String>)
    ensures
        views(res@) == dedup(executed_paths(messages@)),
{
    let mut paths: Vec<String> = Vec::new();
    let mut m: usize = 0;
    while m < messages.len()
        invariant
            m <= messages@.len(),
            views(paths@) == dedup(executed_paths(messages@.take(m as int))),
        decreases messages.len() - m,
    {
        let message = &messages[m];
        let ghost done = messages@.take(m as int);
        let ghost flat = executed_paths(done);
        proof {
            let t = messages@.take(m + 1);
            assert(t.drop_last() =~= done);
            assert(t.last() == messages@[m as int]);
        }
        let executed = crate::text::str_eq(message.reason.as_str(), "build-script-executed");
        if executed {
            let mut k: usize = 0;
            proof {
                assert(flat + views(message.linked_paths@).take(0) =~= flat);
            }
            while k < message.linked_paths.len()
                invariant
                    k <= message.linked_paths@.len(),
                    views(paths@) == dedup(flat + views(message.linked_paths@).take(k as int)),
                decreases message.linked_paths.len() - k,
            {
                let path = &message.linked_paths[k];
                let ghost before = views(paths@);
                let ghost grown = flat + views(message.linked_paths@).take(k + 1);
                proof {
                    assert(grown.drop_last() =~= flat + views(message.linked_paths@).take(k as int));
                    assert(grown.last() == path@);
                }
                if !contains_string(&paths, path) {
                    paths.push(path.clone());
                    proof {
                        assert(views(paths@) =~= before.push(path@));
                    }
                }
                k += 1;
            }
            proof {
                assert(views(message.linked_paths@).take(k as int) =~= views(message.linked_paths@));
                assert(executed_paths(messages@.take(m + 1)) == flat + views(message.linked_paths@));
            }
        } else {
            proof {
                assert(executed_paths(messages@.take(m + 1)) == flat);
            }
        }
        m += 1;
    }
    proof {
        assert(messages@.take(m as int) =~= messages@);
    }
    paths
}

/// The libraries to link, from the combined output of a build.
pub open spec fn combined_output(stdout: Seq<char>, stderr: Seq<char>) -> Seq<char> {
    stdout + "\n"@ + stderr
}

/// The error when a build's output has no `native-static-libs` note.
pub open spec fn missing_metadata_text() -> Seq<char> {
    "cargo rustc --print=native-static-libs did not emit link metadata"@
}

impl NativeLinkMetadata {
    /// The link metadata of a build from what it wrote: the libraries of the
    /// last `native-static-libs` note in its standard output followed by its
    /// error output, and the search paths of its build-script messages. A
    /// build that wrote no such note fails.
    pub fn from_output_text(stdout: &str, stderr: &str, messages: &Vec<BuildScriptMessage>) -> (res: Result<Self, CliError>)
        ensures
            match res {
                Ok(meta) => {
                    &&& last_flags(rust_lines(combined_output(stdout@, stderr@))) == Some(views(meta.native_static_libraries@))
                    &&& views(meta.native_link_search_paths@) == dedup(executed_paths(messages@))
                },
                Err(e) => {
                    &&& last_flags(rust_lines(combined_output(stdout@, stderr@))) is None
                    &&& e->status is None
                    &&& e->command@ == missing_metadata_text()
                },
            },
    {
        let combined = crate::text::cat3(stdout, "\n", stderr);
        match extract_native_static_libraries(combined.as_str()) {
            None => Err(CliError::CommandFailed {
                command: String::from_str("cargo rustc --print=native-static-libs did not emit link metadata"),
                status: None,
            }),
            Some(native_static_libraries) => Ok(NativeLinkMetadata {
                native_static_libraries,
                native_link_search_paths: link_search_paths(messages),
            }),
        }
    }
}


/// No escape character is left once ANSI escapes are stripped.
pub proof fn law_strip_ansi_removes_escapes(s: Seq<char>)
    ensures
        forall|i: int| 0 <= i < strip_ansi(s).len() ==> !is_escape(#[trigger] strip_ansi(s)[i]),
    decreases s.len(),
{
    if s.len() == 0 {
    } else if !is_escape(s[0]) {
        law_strip_ansi_removes_escapes(s.skip(1));
        let r = strip_ansi(s.skip(1));
        assert(strip_ansi(s) == seq![s[0]] + r);
        assert forall|i: int| 0 <= i < strip_ansi(s).len() implies !is_escape(#[trigger] strip_ansi(s)[i]) by {
            if i > 0 {
                assert(strip_ansi(s)[i] == r[i - 1]);
            } else {
                assert(strip_ansi(s)[0] == s[0]);
            }
        }
    } else if s.len() == 1 {
        assert(strip_ansi(s).len() == 0);
    } else if s[1] != '[' {
        law_strip_ansi_removes_escapes(s.skip(2));
        assert(strip_ansi(s) == strip_ansi(s.skip(2)));
    } else {
        let rest = s.skip(2);
        lemma_first_final(rest);
        let j = first_final(rest);
        if j < rest.len() {
            law_strip_ansi_removes_escapes(rest.skip(j + 1));
            assert(strip_ansi(s) == strip_ansi(rest.skip(j + 1)));
        } else {
            assert(strip_ansi(s).len() == 0);
        }
    }
}

/// Text without escape characters is left as it is.
pub proof fn law_strip_ansi_keeps_plain_text(s: Seq<char>)
    requires
        forall|i: int| 0 <= i < s.len() ==> !is_escape(#[trigger] s[i]),
    ensures
        strip_ansi(s) == s,
    decreases s.len(),
{
    if s.len() > 0 {
        assert(!is_escape(s[0]));
        assert forall|i: int| 0 <= i < s.skip(1).len() implies !is_escape(#[trigger] s.skip(1)[i]) by {
            assert(s.skip(1)[i] == s[i + 1]);
        }
        law_strip_ansi_keeps_plain_text(s.skip(1));
        assert(seq![s[0]] + s.skip(1) =~= s);
    }
}

/// Every word is a nonempty run of characters that are not white space.
pub proof fn law_words_are_nonempty_and_unbroken(s: Seq<char>)
    ensures
        forall|i: int| 0 <= i < words(s).len() ==> {
            &&& (#[trigger] words(s)[i]).len() > 0
            &&& forall|k: int| 0 <= k < words(s)[i].len() ==> !white_space(#[trigger] words(s)[i][k])
        },
    decreases s.len(),
{
    if s.len() > 0 {
        let t = s.drop_last();
        law_words_are_nonempty_and_unbroken(t);
        let w = words(t);
        let c = s.last();
        if !white_space(c) && s.len() >= 2 && !white_space(s[s.len() - 2]) {
            lemma_words_nonempty(t);
            assert(t.last() == s[s.len() - 2]);
            let u = w.update(w.len() - 1, w.last().push(c));
            assert forall|i: int| 0 <= i < u.len() implies {
                &&& (#[trigger] u[i]).len() > 0
                &&& forall|k: int| 0 <= k < u[i].len() ==> !white_space(#[trigger] u[i][k])
            } by {
                if i == w.len() - 1 {
                    assert forall|k: int| 0 <= k < u[i].len() implies !white_space(#[trigger] u[i][k]) by {
                        if k < w.last().len() {
                            assert(u[i][k] == w[i][k]);
                        }
                    }
                } else {
                    assert(u[i] == w[i]);
                }
            }
        }
    }
}

/// Words hold no escape character where the text holds none.
proof fn lemma_words_without_escapes(s: Seq<char>)
    requires
        forall|i: int| 0 <= i < s.len() ==> !is_escape(#[trigger] s[i]),
    ensures
        forall|i: int, k: int| 0 <= i < words(s).len() && 0 <= k < words(s)[i].len() ==> !is_escape(#[trigger] words(s)[i][k]),
    decreases s.len(),
{
    if s.len() > 0 {
        let t = s.drop_last();
        assert forall|i: int| 0 <= i < t.len() implies !is_escape(#[trigger] t[i]) by {
            assert(t[i] == s[i]);
        }
        lemma_words_without_escapes(t);
        let w = words(t);
        let c = s.last();
        assert(!is_escape(s[s.len() - 1]));
        if !white_space(c) && s.len() >= 2 && !white_space(s[s.len() - 2]) {
            lemma_words_nonempty(t);
            assert(t.last() == s[s.len() - 2]);
            let u = w.update(w.len() - 1, w.last().push(c));
            assert forall|i: int, k: int| 0 <= i < u.len() && 0 <= k < u[i].len() implies !is_escape(#[trigger] u[i][k]) by {
                if i == w.len() - 1 {
                    if k < w.last().len() {
                        assert(u[i][k] == w[i][k]);
                    }
                } else {
                    assert(u[i] == w[i]);
                }
            }
        } else if !white_space(c) {
            let u = w.push(seq![c]);
            assert forall|i: int, k: int| 0 <= i < u.len() && 0 <= k < u[i].len() implies !is_escape(#[trigger] u[i][k]) by {
                if i < w.len() {
                    assert(u[i] == w[i]);
                }
            }
        }
    }
}

/// The flags of a line are nonempty words without white space or escape
/// characters.
pub proof fn law_parsed_flags_are_words(line: Seq<char>)
    ensures
        parse_flags(line) matches Some(f) ==> {
            &&& f.len() > 0
            &&& forall|i: int| 0 <= i < f.len() ==> {
                &&& (#[trigger] f[i]).len() > 0
                &&& forall|k: int| 0 <= k < f[i].len() ==> !white_space(#[trigger] f[i][k])
                &&& forall|k: int| 0 <= k < f[i].len() ==> !is_escape(#[trigger] f[i][k])
            }
        },
{
    let s = strip_ansi(line);
    if let Some(m) = first_match(s, marker(), 0) {
        lemma_first_match(s, marker(), 0);
        let rest = s.skip(m + marker().len());
        law_words_are_nonempty_and_unbroken(rest);
        law_strip_ansi_removes_escapes(line);
        assert forall|i: int| 0 <= i < rest.len() implies !is_escape(#[trigger] rest[i]) by {
            assert(rest[i] == s[i + m + marker().len()]);
        }
        lemma_words_without_escapes(rest);
    }
}

proof fn lemma_dedup(s: Seq<Seq<char>>)
    ensures
        forall|x: Seq<char>| #[trigger] dedup(s).contains(x) <==> s.contains(x),
        forall|i: int, j: int| 0 <= i < j < dedup(s).len() ==> dedup(s)[i] != dedup(s)[j],
    decreases s.len(),
{
    if s.len() > 0 {
        let t = s.drop_last();
        lemma_dedup(t);
        let d = dedup(t);
        assert forall|x: Seq<char>| #[trigger] dedup(s).contains(x) <==> s.contains(x) by {
            if s.contains(x) {
                let k = choose|k: int| 0 <= k < s.len() && s[k] == x;
                if k < s.len() - 1 {
                    assert(t[k] == x);
                    assert(t.contains(x));
                }
            }
            if t.contains(x) {
                let k = choose|k: int| 0 <= k < t.len() && t[k] == x;
                assert(s[k] == x);
            }
            if !d.contains(s.last()) {
                let e = d.push(s.last());
                if e.contains(x) && !d.contains(x) {
                    let k = choose|k: int| 0 <= k < e.len() && e[k] == x;
                    assert(k == d.len());
                }
                if d.contains(x) {
                    let k = choose|k: int| 0 <= k < d.len() && d[k] == x;
                    assert(e[k] == x);
                }
                if x == s.last() {
                    assert(e[d.len() as int] == x);
                }
            }
            if x == s.last() {
                assert(s[s.len() - 1] == x);
            }
        }
        if !d.contains(s.last()) {
            let e = d.push(s.last());
            assert forall|i: int, j: int| 0 <= i < j < e.len() implies e[i] != e[j] by {
                if j == d.len() {
                    assert(e[i] == d[i]);
                    if d[i] == s.last() {
                        assert(d.contains(s.last()));
                    }
                }
            }
        }
    }
}

/// The search paths are those the build scripts that ran linked, each
/// exactly once.
pub proof fn law_search_paths_are_unique(ms: Seq<BuildScriptMessage>)
    ensures
        forall|x: Seq<char>| #[trigger] dedup(executed_paths(ms)).contains(x) <==> executed_paths(ms).contains(x),
        forall|i: int, j: int| 0 <= i < j < dedup(executed_paths(ms)).len() ==>
            dedup(executed_paths(ms))[i] != dedup(executed_paths(ms))[j],
{
    lemma_dedup(executed_paths(ms));
}

} // verus!
