use vstd::prelude::*;
use crate::text::{chars_of, is_trim_of, trim_white_space};
use crate::error::ApiError;
use crate::types::{ErrorAnalysisResponse, SwayCodeGenerationResponse};

verus! {

/// Three backticks start at `i`.
pub open spec fn fence_at(s: Seq<char>, i: int) -> bool {
    0 <= i && i + 3 <= s.len() && s[i] == '`' && s[i + 1] == '`' && s[i + 2] == '`'
}

/// Where the body of a code block opened by a fence at `p` begins: after the
/// fence, an optional `sway` or `rust` tag and a line break; -1 if the fence is
/// not followed by that.
pub open spec fn body_start(s: Seq<char>, p: int) -> int {
    let q = p + 3;
    if q + 5 <= s.len() && s[q + 4] == '\n' && ((s[q] == 's' && s[q + 1] == 'w' && s[q + 2]
        == 'a' && s[q + 3] == 'y') || (s[q] == 'r' && s[q + 1] == 'u' && s[q + 2] == 's' && s[q
        + 3] == 't')) {
        q + 5
    } else if q < s.len() && s[q] == '\n' {
        q + 1
    } else {
        -1
    }
}

/// The first fence at or after `k`, or -1.
pub open spec fn first_fence_from(s: Seq<char>, k: int) -> int
    decreases s.len() - k,
{
    if k < 0 || k + 3 > s.len() {
        -1
    } else if fence_at(s, k) {
        k
    } else {
        first_fence_from(s, k + 1)
    }
}

/// The leftmost code block that starts at or after `from`: where its opening
/// fence starts and where its closing fence (the first one after the body's
/// start) starts.
pub open spec fn first_block_from(s: Seq<char>, from: int) -> Option<(int, int)>
    decreases s.len() - from,
{
    if from < 0 || from >= s.len() {
        None
    } else {
        let b = body_start(s, from);
        if fence_at(s, from) && b >= 0 && first_fence_from(s, b) >= 0 {
            Some((from, first_fence_from(s, b)))
        } else {
            first_block_from(s, from + 1)
        }
    }
}

/// `s` from `from` on with every code block removed, blocks taken left to right.
pub open spec fn strip_blocks(s: Seq<char>, from: int) -> Seq<char>
    decreases s.len() - from,
{
    match first_block_from(s, from) {
        None => if 0 <= from <= s.len() {
            s.subrange(from, s.len() as int)
        } else {
            Seq::empty()
        },
        Some((p, e)) => if from < e + 3 <= s.len() {
            s.subrange(from, p) + strip_blocks(s, e + 3)
        } else {
            Seq::empty()
        },
    }
}

/// The body of the first code block of `s`, if it has one.
pub open spec fn first_code_block(s: Seq<char>) -> Option<Seq<char>> {
    match first_block_from(s, 0) {
        Some((p, e)) => Some(s.subrange(body_start(s, p), e)),
        None => None,
    }
}

proof fn lemma_first_fence_bounds(s: Seq<char>, k: int)
    requires
        k >= 0,
    ensures
        first_fence_from(s, k) == -1 || (k <= first_fence_from(s, k) && fence_at(
            s,
            first_fence_from(s, k),
        )),
    decreases s.len() - k,
{
    if k + 3 <= s.len() && !fence_at(s, k) {
        lemma_first_fence_bounds(s, k + 1);
    }
}

proof fn lemma_first_block_bounds(s: Seq<char>, from: int)
    requires
        from >= 0,
    ensures
        match first_block_from(s, from) {
            Some((p, e)) => from <= p && fence_at(s, p) && p + 4 <= body_start(s, p) <= e
                && fence_at(s, e),
            None => true,
        },
    decreases s.len() - from,
{
    if from < s.len() {
        let b = body_start(s, from);
        if fence_at(s, from) && b >= 0 && first_fence_from(s, b) >= 0 {
            lemma_first_fence_bounds(s, b);
        } else {
            lemma_first_block_bounds(s, from + 1);
        }
    }
}

fn is_fence(cs: &Vec<char>, i: usize) -> (r: bool)
    ensures
        r == fence_at(cs@, i as int),
{
    i < cs.len() && cs.len() - i >= 3 && cs[i] == '`' && cs[i + 1] == '`' && cs[i + 2] == '`'
}

fn find_body_start(cs: &Vec<char>, p: usize) -> (r: Option<usize>)
    requires
        p + 3 <= cs.len(),
    ensures
        match r {
            Some(b) => b as int == body_start(cs@, p as int),
            None => body_start(cs@, p as int) == -1,
        },
{
    let q = p + 3;
    if cs.len() - q >= 5 && cs[q + 4] == '\n' && ((cs[q] == 's' && cs[q + 1] == 'w' && cs[q + 2]
        == 'a' && cs[q + 3] == 'y') || (cs[q] == 'r' && cs[q + 1] == 'u' && cs[q + 2] == 's'
        && cs[q + 3] == 't')) {
        Some(q + 5)
    } else if q < cs.len() && cs[q] == '\n' {
        Some(q + 1)
    } else {
        None
    }
}

fn find_fence(cs: &Vec<char>, from: usize) -> (r: Option<usize>)
    ensures
        match r {
            Some(e) => e as int == first_fence_from(cs@, from as int),
            None => first_fence_from(cs@, from as int) == -1,
        },
{
    let mut k = from;
    while k < cs.len() && cs.len() - k >= 3
        invariant
            from <= k,
            first_fence_from(cs@, from as int) == first_fence_from(cs@, k as int),
        decreases cs.len() - k,
    {
        if is_fence(cs, k) {
            return Some(k);
        }
        k = k + 1;
    }
    None
}

fn find_block(cs: &Vec<char>, from: usize) -> (r: Option<(usize, usize)>)
    ensures
        match r {
            Some((p, e)) => first_block_from(cs@, from as int) == Some((p as int, e as int)),
            None => first_block_from(cs@, from as int) is None,
        },
{
    let mut p = from;
    while p < cs.len()
        invariant
            from <= p,
            first_block_from(cs@, from as int) == first_block_from(cs@, p as int),
        decreases cs.len() - p,
    {
        if is_fence(cs, p) {
            match find_body_start(cs, p) {
                Some(b) => match find_fence(cs, b) {
                    Some(e) => {
                        return Some((p, e));
                    },
                    None => {},
                },
                None => {},
            }
        }
        p = p + 1;
    }
    None
}

/// `s` with every code block removed, as a left-to-right replacement of each
/// block by nothing leaves it.
pub fn strip_code_blocks(s: &str) -> (r: String)
    ensures
        r@ == strip_blocks(s@, 0),
{
    let cs = chars_of(s);
    let n = cs.len();
    let mut out = String::new();
    let mut pos: usize = 0;
    loop
        invariant
            cs@ == s@,
            n == s@.len(),
            pos <= n,
            out@ + strip_blocks(s@, pos as int) == strip_blocks(s@, 0),
        decreases n - pos,
    {
        proof {
            lemma_first_block_bounds(s@, pos as int);
        }
        match find_block(&cs, pos) {
            None => {
                out.append(s.substring_char(pos, n));
                proof {
                    assert(out@ == strip_blocks(s@, 0));
                }
                return out;
            },
            Some((p, e)) => {
                let ghost prev = out@;
                out.append(s.substring_char(pos, p));
                proof {
                    assert(prev + strip_blocks(s@, pos as int) == out@ + strip_blocks(s@, e + 3));
                }
                pos = e + 3;
            },
        }
    }
}

/// The body of the first code block of `s`, trimmed, if `s` has a code block.
fn first_code_block_trimmed(s: &str) -> (r: Option<String>)
    ensures
        match first_code_block(s@) {
            Some(body) => r is Some && is_trim_of(r->Some_0@, body),
            None => r is None,
        },
{
    let cs = chars_of(s);
    proof {
        lemma_first_block_bounds(s@, 0);
    }
    match find_block(&cs, 0) {
        Some((p, e)) => match find_body_start(&cs, p) {
            Some(b) => {
                let body = s.substring_char(b, e);
                Some(String::from_str(trim_white_space(body)))
            },
            None => None,
        },
        None => None,
    }
}

/// Explanation given when a generated answer holds nothing but code.
pub const DEFAULT_EXPLANATION: &'static str = "Generated Sway smart contract";

/// Advice that comes with every generated contract.
pub const GENERATION_SUGGESTIONS: [&'static str; 3] = [
    "Review the generated code for your specific requirements",
    "Test the contract thoroughly before deployment",
    "Consider gas optimization for complex operations",
];

/// Advice that comes with every error analysis.
pub const ANALYSIS_SUGGESTIONS: [&'static str; 3] = [
    "Verify the fix addresses the root cause",
    "Check for similar patterns in your code",
    "Consider adding tests to prevent regression",
];

/// The texts of a list of fixed advice lines.
fn suggestions_of(lines: [&'static str; 3]) -> (r: Vec<String>)
    ensures
        r@.len() == 3,
        forall|i: int| 0 <= i < 3 ==> #[trigger] r@[i]@ == lines@[i]@,
{
    let mut out: Vec<String> = Vec::new();
    let mut i: usize = 0;
    while i < 3
        invariant
            i <= 3,
            out@.len() == i,
            forall|j: int| 0 <= j < i ==> #[trigger] out@[j]@ == lines@[j]@,
        decreases 3 - i,
    {
        out.push(String::from_str(lines[i]));
        i = i + 1;
    }
    out
}

/// Splits a model's answer to a code generation request: the code is the first
/// code block's body (the whole answer if it has none), the explanation is the
/// rest of the answer without its code blocks, or a stock sentence if nothing
/// else is left.
pub fn parse_code_generation_response(response: &str) -> (r: Result<
    SwayCodeGenerationResponse,
    ApiError,
>)
    ensures
        r is Ok,
        match first_code_block(response@) {
            Some(body) => is_trim_of(r->Ok_0.code@, body),
            None => r->Ok_0.code@ == response@,
        },
        exists|t: Seq<char>|
            #[trigger] is_trim_of(t, strip_blocks(response@, 0)) && r->Ok_0.explanation@ == (if t.len()
                == 0 {
                DEFAULT_EXPLANATION@
            } else {
                t
            }),
        r->Ok_0.suggestions@.len() == 3,
        forall|i: int|
            0 <= i < 3 ==> #[trigger] r->Ok_0.suggestions@[i]@ == GENERATION_SUGGESTIONS@[i]@,
{
    let code = match first_code_block_trimmed(response) {
        Some(c) => c,
        None => String::from_str(response),
    };
    let stripped = strip_code_blocks(response);
    let rest = trim_white_space(stripped.as_str());
    let explanation = if rest.unicode_len() == 0 {
        String::from_str(DEFAULT_EXPLANATION)
    } else {
        String::from_str(rest)
    };
    Ok(
        SwayCodeGenerationResponse {
            code,
            explanation,
            suggestions: suggestions_of(GENERATION_SUGGESTIONS),
        },
    )
}

/// Reads a model's answer to an error analysis request: the analysis is the
/// whole answer, the fixed code the first code block's body, if there is one.
pub fn parse_error_analysis_response(response: &str) -> (r: Result<
    ErrorAnalysisResponse,
    ApiError,
>)
    ensures
        r is Ok,
        r->Ok_0.analysis@ == response@,
        match first_code_block(response@) {
            Some(body) => r->Ok_0.fixed_code is Some && is_trim_of(
                r->Ok_0.fixed_code->Some_0@,
                body,
            ),
            None => r->Ok_0.fixed_code is None,
        },
        r->Ok_0.suggestions@.len() == 3,
        forall|i: int|
            0 <= i < 3 ==> #[trigger] r->Ok_0.suggestions@[i]@ == ANALYSIS_SUGGESTIONS@[i]@,
{
    Ok(
        ErrorAnalysisResponse {
            analysis: String::from_str(response),
            suggestions: suggestions_of(ANALYSIS_SUGGESTIONS),
            fixed_code: first_code_block_trimmed(response),
        },
    )
}

} // verus!
