//! A bound on how deeply the records of one line may nest.
//!
//! The record reader descends one level for every `[` or `{` it consumes
//! outside a string literal, and it is run without a depth limit of its own.
//! Lines that nest deeper than the bound are therefore never handed to it.

use vstd::prelude::*;

verus! {

/// The deepest nesting accepted on a line: the depth that `serde_json`
/// allows where its own limit is left on.
pub const MAX_NESTING: usize = 128;

/// Where a scan stands within the current line.
pub struct Scan {
    /// Brackets and braces opened and not yet closed.
    pub depth: nat,
    /// Whether the scan is inside a string literal.
    pub in_string: bool,
    /// Whether the previous character was a backslash inside a string literal.
    pub escaped: bool,
}

/// The scan at the start of a line.
pub open spec fn line_start() -> Scan {
    Scan { depth: 0, in_string: false, escaped: false }
}

/// The scan after one more character. A newline starts a new line. Inside a
/// string literal only the closing quote and the backslash count; outside,
/// `[` and `{` open a level and `]` and `}` close one.
pub open spec fn scan_step(s: Scan, c: char) -> Scan {
    if c == '\n' {
        line_start()
    } else if s.in_string {
        if s.escaped {
            Scan { escaped: false, ..s }
        } else if c == '\\' {
            Scan { escaped: true, ..s }
        } else if c == '"' {
            Scan { in_string: false, ..s }
        } else {
            s
        }
    } else if c == '"' {
        Scan { in_string: true, ..s }
    } else if c == '[' || c == '{' {
        Scan { depth: s.depth + 1, ..s }
    } else if c == ']' || c == '}' {
        Scan { depth: if s.depth > 0 { (s.depth - 1) as nat } else { 0 }, ..s }
    } else {
        s
    }
}

/// The scan after all of `text`.
pub open spec fn scan(text: Seq<char>) -> Scan
    decreases text.len(),
{
    if text.len() == 0 {
        line_start()
    } else {
        scan_step(scan(text.drop_last()), text.last())
    }
}

/// The number of newlines in `text`.
pub open spec fn newlines(text: Seq<char>) -> nat
    decreases text.len(),
{
    if text.len() == 0 {
        0
    } else {
        newlines(text.drop_last()) + if text.last() == '\n' {
            1nat
        } else {
            0nat
        }
    }
}

/// The index, counted from zero, of the first line on which the nesting
/// exceeds the bound, if there is one.
pub open spec fn deep_line(text: Seq<char>) -> Option<nat>
    decreases text.len(),
{
    if text.len() == 0 {
        None
    } else {
        match deep_line(text.drop_last()) {
            Some(line) => Some(line),
            None => if scan(text).depth > MAX_NESTING {
                Some(newlines(text.drop_last()))
            } else {
                None
            },
        }
    }
}

/// Whether the nesting stays within the bound on every line of `text`.
pub open spec fn nesting_bounded(text: Seq<char>) -> bool {
    deep_line(text) is None
}

/// The index of a line as a natural number.
pub open spec fn line_index(line: Option<usize>) -> Option<nat> {
    match line {
        Some(l) => Some(l as nat),
        None => None,
    }
}

/// There are never more newlines than characters.
proof fn lemma_newlines_len(text: Seq<char>)
    ensures
        newlines(text) <= text.len(),
    decreases text.len(),
{
    if text.len() > 0 {
        lemma_newlines_len(text.drop_last());
    }
}

/// A deep line found in a prefix of the text is the first one of all of it.
proof fn lemma_deep_line_prefix(text: Seq<char>, n: int)
    requires
        0 <= n <= text.len(),
        deep_line(text.subrange(0, n)) is Some,
    ensures
        deep_line(text) == deep_line(text.subrange(0, n)),
    decreases text.len() - n,
{
    if n < text.len() {
        let next = text.subrange(0, n + 1);
        assert(next.drop_last() =~= text.subrange(0, n));
        lemma_deep_line_prefix(text, n + 1);
    } else {
        assert(text.subrange(0, n) =~= text);
    }
}

/// The nesting is bounded exactly when the depth is within the bound after
/// every prefix of the text.
pub proof fn lemma_bounded_at_every_prefix(text: Seq<char>)
    ensures
        nesting_bounded(text) <==> forall|n: int|
            0 <= n <= text.len() ==> (#[trigger] scan(text.subrange(0, n))).depth <= MAX_NESTING,
    decreases text.len(),
{
    assert(text.subrange(0, text.len() as int) =~= text);
    if text.len() == 0 {
        assert forall|n: int| 0 <= n <= text.len() implies (#[trigger] scan(
            text.subrange(0, n),
        )).depth <= MAX_NESTING by {
            assert(text.subrange(0, n) =~= text);
        }
    } else {
        let init = text.drop_last();
        lemma_bounded_at_every_prefix(init);
        assert forall|n: int| 0 <= n <= init.len() implies text.subrange(0, n)
            == #[trigger] init.subrange(0, n) by {
            assert(text.subrange(0, n) =~= init.subrange(0, n));
        }
        if nesting_bounded(text) {
            assert forall|n: int| 0 <= n <= text.len() implies (#[trigger] scan(
                text.subrange(0, n),
            )).depth <= MAX_NESTING by {
                if n < text.len() {
                    assert(text.subrange(0, n) == init.subrange(0, n));
                }
            }
        } else if nesting_bounded(init) {
            assert(scan(text.subrange(0, text.len() as int)).depth > MAX_NESTING);
        } else {
            let n = choose|n: int|
                0 <= n <= init.len() && (#[trigger] scan(init.subrange(0, n))).depth > MAX_NESTING;
            assert(text.subrange(0, n) == init.subrange(0, n));
        }
    }
}

/// Finds the first line of `output` on which the nesting exceeds the bound.
pub fn find_deep_line(output: &str) -> (line: Option<usize>)
    ensures
        line_index(line) == deep_line(output@),
{
    let n = output.unicode_len();
    let ghost text = output@;
    let mut depth: usize = 0;
    let mut in_string = false;
    let mut escaped = false;
    let mut lines: usize = 0;
    assert(text.subrange(0, 0) =~= Seq::empty());
    for c in iter: output.chars()
        invariant
            text == output@,
            iter.seq() == text,
            n == text.len(),
            deep_line(text.subrange(0, iter.index() as int)) is None,
            scan(text.subrange(0, iter.index() as int)) == (Scan {
                depth: depth as nat,
                in_string,
                escaped,
            }),
            depth <= MAX_NESTING,
            lines == newlines(text.subrange(0, iter.index() as int)),
    {
        let ghost i = iter.index() as int;
        let ghost seen = text.subrange(0, i);
        let ghost next = text.subrange(0, i + 1);
        assert(next.drop_last() =~= seen);
        assert(next.last() == c);
        proof {
            lemma_newlines_len(next);
        }
        if c == '\n' {
            depth = 0;
            in_string = false;
            escaped = false;
            lines += 1;
        } else if in_string {
            if escaped {
                escaped = false;
            } else if c == '\\' {
                escaped = true;
            } else if c == '"' {
                in_string = false;
            }
        } else if c == '"' {
            in_string = true;
        } else if c == '[' || c == '{' {
            if depth == MAX_NESTING {
                proof {
                    assert(deep_line(next) == Some(lines as nat));
                    lemma_deep_line_prefix(text, i + 1);
                }
                return Some(lines);
            }
            depth += 1;
        } else if c == ']' || c == '}' {
            if depth > 0 {
                depth -= 1;
            }
        }
    }
    assert(text.subrange(0, text.len() as int) =~= text);
    None
}

} // verus!
