use vstd::prelude::*;
use crate::text::chars_of;
use vstd::utf8::encode_utf8;

verus! {

/// `s` holds `prefix` at `i`.
pub open spec fn holds_at(s: Seq<char>, i: int, prefix: Seq<char>) -> bool {
    0 <= i && i + prefix.len() <= s.len() && s.subrange(i, i + prefix.len()) == prefix
}

/// The marker that starts an event of a server-sent event stream.
pub open spec fn event_marker() -> Seq<char> {
    seq!['e', 'v', 'e', 'n', 't', ':']
}

/// The marker that starts the data line of a server-sent event.
pub open spec fn data_marker() -> Seq<char> {
    seq!['d', 'a', 't', 'a', ':', ' ']
}

/// Where the line that starts at `i` ends: the first line feed at or after `i`,
/// or the end of `s`.
pub open spec fn line_end(s: Seq<char>, i: int) -> int
    decreases s.len() - i,
{
    if i < 0 || i >= s.len() {
        s.len() as int
    } else if s[i] == '\n' {
        i
    } else {
        line_end(s, i + 1)
    }
}

/// The first line, among those that start at `i` or later (`i` being a line
/// start), that starts with the data marker.
pub open spec fn first_data_line(s: Seq<char>, i: int) -> Option<int>
    decreases s.len() - i,
{
    if i < 0 || i >= s.len() {
        None
    } else if holds_at(s, i, data_marker()) {
        Some(i)
    } else if i <= line_end(s, i) < s.len() {
        first_data_line(s, line_end(s, i) + 1)
    } else {
        None
    }
}

/// The text of the line that starts at `i` after the data marker, without its
/// line ending (a line feed, or a carriage return and a line feed).
pub open spec fn data_of_line(s: Seq<char>, i: int) -> Seq<char> {
    let e = line_end(s, i);
    let end = if e < s.len() && e > i + 6 && s[e - 1] == '\r' {
        e - 1
    } else {
        e
    };
    s.subrange(i + 6, end)
}

/// The JSON text of an answer of the documentation server: when the answer is
/// an event stream, the data of its first data line; otherwise, or when it has
/// no data line, the whole answer.
pub open spec fn mcp_payload_spec(s: Seq<char>) -> Seq<char> {
    if holds_at(s, 0, event_marker()) {
        match first_data_line(s, 0) {
            Some(i) => data_of_line(s, i),
            None => s,
        }
    } else {
        s
    }
}

proof fn lemma_line_end_bounds(s: Seq<char>, k: int)
    requires
        0 <= k <= s.len(),
    ensures
        k <= line_end(s, k) <= s.len(),
    decreases s.len() - k,
{
    if k < s.len() && s[k] != '\n' {
        lemma_line_end_bounds(s, k + 1);
    }
}

proof fn lemma_line_end_skip(s: Seq<char>, i: int, k: int)
    requires
        0 <= i <= k <= s.len(),
        forall|j: int| i <= j < k ==> s[j] != '\n',
    ensures
        line_end(s, i) == line_end(s, k),
    decreases k - i,
{
    if i < k {
        lemma_line_end_skip(s, i + 1, k);
    }
}

fn holds_marker(cs: &Vec<char>, i: usize, marker: &[char; 6]) -> (r: bool)
    ensures
        r == holds_at(cs@, i as int, marker@),
{
    if i > cs.len() || cs.len() - i < 6 {
        return false;
    }
    let mut k: usize = 0;
    while k < 6
        invariant
            k <= 6,
            i + 6 <= cs.len(),
            forall|j: int| 0 <= j < k ==> cs@[i + j] == marker@[j],
        decreases 6 - k,
    {
        if cs[i + k] != marker[k] {
            assert(cs@.subrange(i as int, i + 6)[k as int] != marker@[k as int]);
            return false;
        }
        k = k + 1;
    }
    assert(cs@.subrange(i as int, i + 6) =~= marker@);
    true
}

fn find_line_end(cs: &Vec<char>, i: usize) -> (r: usize)
    requires
        i <= cs.len(),
    ensures
        r as int == line_end(cs@, i as int),
        i <= r <= cs.len(),
{
    let mut k = i;
    while k < cs.len() && cs[k] != '\n'
        invariant
            i <= k <= cs.len(),
            line_end(cs@, i as int) == line_end(cs@, k as int),
        decreases cs.len() - k,
    {
        k = k + 1;
    }
    k
}

/// The JSON text of an answer of the documentation server.
pub fn mcp_payload(s: &str) -> (r: &str)
    ensures
        r@ == mcp_payload_spec(s@),
{
    let cs = chars_of(s);
    let event: [char; 6] = ['e', 'v', 'e', 'n', 't', ':'];
    let data: [char; 6] = ['d', 'a', 't', 'a', ':', ' '];
    proof {
        assert(event@ =~= event_marker());
        assert(data@ =~= data_marker());
    }
    if !holds_marker(&cs, 0, &event) {
        return s;
    }
    let mut i: usize = 0;
    while i < cs.len()
        invariant
            cs@ == s@,
            data@ == data_marker(),
            holds_at(s@, 0, event_marker()),
            i <= cs.len(),
            first_data_line(s@, 0) == first_data_line(s@, i as int),
        decreases cs.len() - i,
    {
        let e = find_line_end(&cs, i);
        if holds_marker(&cs, i, &data) {
            proof {
                assert forall|j: int| i <= j < i + 6 implies s@[j] != '\n' by {
                    assert(s@.subrange(i as int, i + 6)[j - i] == data_marker()[j - i]);
                }
                lemma_line_end_skip(s@, i as int, i + 6);
                lemma_line_end_bounds(s@, i + 6);
            }
            let end = if e < cs.len() && e > i + 6 && cs[e - 1] == '\r' {
                e - 1
            } else {
                e
            };
            return s.substring_char(i + 6, end);
        }
        if e >= cs.len() {
            return s;
        }
        i = e + 1;
    }
    s
}

/// Longest documentation text, in bytes, passed on whole.
pub const MAX_SNIPPET_BYTES: usize = 500;

/// Text that stands for a documentation entry without text.
pub const NO_CONTENT: &'static str = "No content";

/// Marks a documentation text that was cut short.
pub const ELLIPSIS: &'static str = "...";

/// A documentation text as passed on: whole if it is at most 500 bytes long,
/// else its first 500 characters followed by an ellipsis.
pub open spec fn snippet_of(t: Seq<char>) -> Seq<char> {
    if encode_utf8(t).len() > MAX_SNIPPET_BYTES {
        t.subrange(0, if t.len() < MAX_SNIPPET_BYTES { t.len() as int } else { MAX_SNIPPET_BYTES as int }) + ELLIPSIS@
    } else {
        t
    }
}

/// The text of a documentation entry: its `text` field, else its `content`
/// field, else a placeholder.
pub open spec fn entry_text(text: Option<String>, content: Option<String>) -> Seq<char> {
    match text {
        Some(t) => t@,
        None => match content {
            Some(c) => c@,
            None => NO_CONTENT@,
        },
    }
}

/// The text passed on for one documentation entry.
pub fn doc_snippet(text: Option<String>, content: Option<String>) -> (r: String)
    ensures
        r@ == snippet_of(entry_text(text, content)),
{
    let t: String = match text {
        Some(t) => t,
        None => match content {
            Some(c) => c,
            None => String::from_str(NO_CONTENT),
        },
    };
    if t.as_str().as_bytes().len() > MAX_SNIPPET_BYTES {
        let n = t.as_str().unicode_len();
        let keep = if n < MAX_SNIPPET_BYTES { n } else { MAX_SNIPPET_BYTES };
        String::from_str(t.as_str().substring_char(0, keep)).concat(ELLIPSIS)
    } else {
        t
    }
}

/// Number of documentation entries passed on from one search.
pub const MAX_DOC_RESULTS: usize = 3;

/// The texts passed on for the entries of a documentation search (each given by
/// its `text` and `content` fields): those of the first three, in order.
pub fn doc_results(entries: Vec<(Option<String>, Option<String>)>) -> (r: Vec<String>)
    ensures
        r@.len() == if entries@.len() < MAX_DOC_RESULTS { entries@.len() } else { MAX_DOC_RESULTS as nat },
        forall|i: int|
            0 <= i < r@.len() ==> #[trigger] r@[i]@ == snippet_of(
                entry_text(entries@[i].0, entries@[i].1),
            ),
{
    let mut out: Vec<String> = Vec::new();
    let mut i: usize = 0;
    while i < entries.len() && i < MAX_DOC_RESULTS
        invariant
            i <= entries@.len(),
            i <= MAX_DOC_RESULTS,
            out@.len() == i,
            forall|j: int|
                0 <= j < i ==> #[trigger] out@[j]@ == snippet_of(
                    entry_text(entries@[j].0, entries@[j].1),
                ),
        decreases MAX_DOC_RESULTS - i,
    {
        let text = match &entries[i].0 {
            Some(t) => Some(t.clone()),
            None => None,
        };
        let content = match &entries[i].1 {
            Some(c) => Some(c.clone()),
            None => None,
        };
        out.push(doc_snippet(text, content));
        i = i + 1;
    }
    out
}

} // verus!
