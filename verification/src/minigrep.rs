//! Searching a text for the lines that contain a query.
use vstd::prelude::*;

verus! {

/// What to search for, where, and how.
pub struct Config {
    pub query: String,
    pub file_path: String,
    pub ignore_case: bool,
}

impl Config {
    /// Reads a configuration from the words of a command line: the name of
    /// the program, the query and the path of the file. `ignore_case` says
    /// whether the search is to ignore case. Words after the third are
    /// ignored. Without a query, and without a path, there is no
    /// configuration, and the error says which of the two is missing.
    pub fn build(args: Vec<String>, ignore_case: bool) -> (built: Result<Config, &'static str>)
        ensures
            match built {
                Ok(config) => {
                    &&& args@.len() > 2
                    &&& config.query@ == args@[1]@
                    &&& config.file_path@ == args@[2]@
                    &&& config.ignore_case == ignore_case
                },
                Err(message) => {
                    &&& args@.len() <= 2
                    &&& message@ == if args@.len() < 2 {
                        "Didn't get a query string"@
                    } else {
                        "Didn't get a file path"@
                    }
                },
            },
    {
        if args.len() < 2 {
            return Err("Didn't get a query string");
        }
        if args.len() < 3 {
            return Err("Didn't get a file path");
        }
        let query = args[1].clone();
        let file_path = args[2].clone();
        Ok(Config { query, file_path, ignore_case })
    }
}

/// Whether `needle` stands in `haystack` at position `at`.
pub open spec fn occurs_at(haystack: Seq<char>, needle: Seq<char>, at: int) -> bool {
    &&& 0 <= at
    &&& at + needle.len() <= haystack.len()
    &&& haystack.subrange(at, at + needle.len()) == needle
}

/// Whether `needle` stands somewhere in `haystack`.
pub open spec fn contains_text(haystack: Seq<char>, needle: Seq<char>) -> bool {
    exists|at: int| occurs_at(haystack, needle, at)
}

/// A line without the carriage return that may stand before its line feed.
pub open spec fn strip_cr(line: Seq<char>) -> Seq<char> {
    if line.len() > 0 && line.last() == '\r' {
        line.drop_last()
    } else {
        line
    }
}

/// The lines of `text` that are still to come when a line began at `start`
/// and has been read up to `at`. A line feed ends a line; the line feed, and
/// a carriage return just before it, are not part of the line. What follows
/// the last line feed is a line if it is not empty.
pub open spec fn lines_scan(text: Seq<char>, start: int, at: int) -> Seq<Seq<char>>
    decreases text.len() - at,
{
    if at >= text.len() {
        if start < text.len() {
            seq![text.subrange(start, text.len() as int)]
        } else {
            Seq::empty()
        }
    } else if text[at] == '\n' {
        seq![strip_cr(text.subrange(start, at))] + lines_scan(text, at + 1, at + 1)
    } else {
        lines_scan(text, start, at + 1)
    }
}

/// The lines of a text.
pub open spec fn lines(text: Seq<char>) -> Seq<Seq<char>> {
    lines_scan(text, 0, 0)
}

/// The lower-case form of a text: what `str::to_lowercase` of the standard
/// library returns for it.
pub uninterp spec fn lowercase(text: Seq<char>) -> Seq<char>;

/// Whether a line counts as a match: it contains the query, as they stand
/// or, when case is ignored, in their lower-case forms.
pub open spec fn line_matches(line: Seq<char>, query: Seq<char>, ignore_case: bool) -> bool {
    if ignore_case {
        contains_text(lowercase(line), lowercase(query))
    } else {
        contains_text(line, query)
    }
}

/// The lines of `text` that match `query`, in their order.
pub open spec fn selected_lines(text: Seq<char>, query: Seq<char>, ignore_case: bool) -> Seq<
    Seq<char>,
> {
    lines(text).filter(|line: Seq<char>| line_matches(line, query, ignore_case))
}

/// What each of the strings holds.
pub open spec fn texts(found: Seq<&str>) -> Seq<Seq<char>> {
    found.map_values(|line: &str| line@)
}

/// The characters of a string, in a vector.
pub fn to_chars(s: &str) -> (chars: Vec<char>)
    ensures
        chars@ == s@,
{
    let mut chars: Vec<char> = Vec::new();
    for c in it: s.chars()
        invariant
            it.seq() == s@,
            chars.len() == it.index(),
            forall|j: int| 0 <= j < chars.len() ==> chars@[j] == it.seq()[j],
    {
        chars.push(c);
    }
    chars
}

/// Whether `needle` stands in `haystack` at position `at`.
fn matches_at(haystack: &Vec<char>, needle: &Vec<char>, at: usize) -> (found: bool)
    requires
        at + needle@.len() <= haystack@.len(),
    ensures
        found == occurs_at(haystack@, needle@, at as int),
{
    let mut k: usize = 0;
    while k < needle.len()
        invariant
            at + needle@.len() <= haystack@.len(),
            haystack@.len() == haystack.len(),
            k <= needle@.len(),
            forall|j: int| 0 <= j < k ==> haystack@[at + j] == needle@[j],
        decreases needle@.len() - k,
    {
        if haystack[at + k] != needle[k] {
            return false;
        }
        k = k + 1;
    }
    assert(haystack@.subrange(at as int, at + needle@.len()) =~= needle@);
    true
}

/// Whether `needle` stands somewhere in `haystack`, both given by their
/// characters.
pub fn contains_chars(haystack: &Vec<char>, needle: &Vec<char>) -> (found: bool)
    ensures
        found == contains_text(haystack@, needle@),
{
    if needle.len() > haystack.len() {
        return false;
    }
    let last: usize = haystack.len() - needle.len();
    let mut at: usize = 0;
    loop
        invariant
            last == haystack@.len() - needle@.len(),
            at <= last,
            forall|j: int| 0 <= j < at ==> !occurs_at(haystack@, needle@, j),
        decreases last - at,
    {
        if matches_at(haystack, needle, at) {
            return true;
        }
        if at == last {
            return false;
        }
        at = at + 1;
    }
}

/// Whether `needle` stands somewhere in `haystack`.
pub fn contains(haystack: &str, needle: &str) -> (found: bool)
    ensures
        found == contains_text(haystack@, needle@),
{
    let h = to_chars(haystack);
    let n = to_chars(needle);
    contains_chars(&h, &n)
}

/// The lower-case form of a string. This calls `str::to_lowercase`, and
/// nothing is proved of it: the result is taken to be what that function
/// computes from the characters of its argument.
#[verifier::external_body]
fn to_lowercase(text: &str) -> (lower: String)
    ensures
        lower@ == lowercase(text@),
{
    text.to_lowercase()
}

/// Whether `line` matches a query. `needle` is the query as it is compared:
/// the query itself, or its lower-case form when case is ignored.
fn is_match(line: &str, needle: &Vec<char>, ignore_case: bool) -> (found: bool)
    ensures
        found == if ignore_case {
            contains_text(lowercase(line@), needle@)
        } else {
            contains_text(line@, needle@)
        },
{
    if ignore_case {
        let lower = to_lowercase(line);
        let hay = to_chars(lower.as_str());
        contains_chars(&hay, needle)
    } else {
        let hay = to_chars(line);
        contains_chars(&hay, needle)
    }
}

/// Adding a line to the lines looked at adds it to the selection exactly
/// when it matches.
proof fn lemma_select_push(
    done: Seq<Seq<char>>,
    line: Seq<char>,
    query: Seq<char>,
    ignore_case: bool,
)
    ensures
        done.push(line).filter(|l: Seq<char>| line_matches(l, query, ignore_case)) == if line_matches(
            line,
            query,
            ignore_case,
        ) {
            done.filter(|l: Seq<char>| line_matches(l, query, ignore_case)).push(line)
        } else {
            done.filter(|l: Seq<char>| line_matches(l, query, ignore_case))
        },
{
    reveal(Seq::filter);
    assert(done.push(line).drop_last() =~= done);
}

/// The lines of `contents` that match `query`.
fn select<'a>(query: &str, contents: &'a str, ignore_case: bool) -> (found: Vec<&'a str>)
    ensures
        texts(found@) == selected_lines(contents@, query@, ignore_case),
{
    let needle = if ignore_case {
        let lower = to_lowercase(query);
        to_chars(lower.as_str())
    } else {
        to_chars(query)
    };
    let chars = to_chars(contents);
    let n = chars.len();
    let mut found: Vec<&'a str> = Vec::new();
    let mut start: usize = 0;
    let mut at: usize = 0;
    let ghost pred = |l: Seq<char>| line_matches(l, query@, ignore_case);
    let ghost mut done: Seq<Seq<char>> = Seq::empty();
    proof {
        reveal(Seq::filter);
    }
    while at < n
        invariant
            chars@ == contents@,
            n == chars.len(),
            start <= at <= n,
            needle@ == if ignore_case {
                lowercase(query@)
            } else {
                query@
            },
            pred == |l: Seq<char>| line_matches(l, query@, ignore_case),
            done + lines_scan(contents@, start as int, at as int) == lines(contents@),
            texts(found@) == done.filter(pred),
        decreases n - at,
    {
        if chars[at] == '\n' {
            let end = if at > start && chars[at - 1] == '\r' {
                at - 1
            } else {
                at
            };
            let line = contents.substring_char(start, end);
            let keep = is_match(line, &needle, ignore_case);
            proof {
                assert(line@ =~= strip_cr(contents@.subrange(start as int, at as int)));
                lemma_select_push(done, line@, query@, ignore_case);
                done = done.push(line@);
            }
            if keep {
                found.push(line);
            }
            start = at + 1;
        }
        at = at + 1;
    }
    if start < n {
        let line = contents.substring_char(start, n);
        let keep = is_match(line, &needle, ignore_case);
        proof {
            lemma_select_push(done, line@, query@, ignore_case);
            assert(done.push(line@) =~= done + lines_scan(contents@, start as int, at as int));
        }
        if keep {
            found.push(line);
        }
    }
    found
}

/// The lines of `contents` that contain `query`, in their order.
pub fn search<'a>(query: &str, contents: &'a str) -> (found: Vec<&'a str>)
    ensures
        texts(found@) == selected_lines(contents@, query@, false),
{
    select(query, contents, false)
}

/// The lines of `contents` whose lower-case form contains the lower-case
/// form of `query`, in their order.
pub fn search_case_insensitive<'a>(query: &str, contents: &'a str) -> (found: Vec<&'a str>)
    ensures
        texts(found@) == selected_lines(contents@, query@, true),
{
    select(query, contents, true)
}

/// The lines that a run with `config` reports for a file that holds
/// `contents`: those that contain the query as it is written.
pub fn run<'a>(config: &Config, contents: &'a str) -> (found: Vec<&'a str>)
    ensures
        texts(found@) == selected_lines(contents@, config.query@, false),
{
    search(config.query.as_str(), contents)
}

} // verus!
