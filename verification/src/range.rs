//! The `Range` request header (RFC 7233), as far as this service reads it:
//! a single `bytes=start-end` range, where `end` may be left open.

use vstd::prelude::*;
use vstd::slice::slice_subrange;
use crate::text::{decimal, is_digit, lemma_decimal_shape, lemma_parse_decimal_roundtrip, chars_of, find_char_from, lemma_first_index, parse_u64, parse_u64_spec};

verus! {

/// The characters `bytes=`.
pub open spec fn bytes_unit_prefix() -> Seq<char> {
    seq!['b', 'y', 't', 'e', 's', '=']
}

/// The text after the first `-` of `s`, when `s` has one.
pub open spec fn after_first_dash(s: Seq<char>) -> Option<Seq<char>> {
    match s.index_of_first('-') {
        Some(i) => Some(s.skip(i + 1)),
        None => None,
    }
}

/// The text before the first `-` of `s`, or all of `s`.
pub open spec fn before_first_dash(s: Seq<char>) -> Seq<char> {
    match s.index_of_first('-') {
        Some(i) => s.take(i),
        None => s,
    }
}

/// The requested last byte before clamping: the number after the dash, or
/// `open_end` when there is no dash or nothing after it; `None` when the
/// text after the dash is not a number, which makes the header malformed.
pub open spec fn requested_end(second: Option<Seq<char>>, open_end: u64) -> Option<u64> {
    match second {
        Some(t) => if t.len() == 0 {
            Some(open_end)
        } else {
            parse_u64_spec(t)
        },
        None => Some(open_end),
    }
}

/// The byte range `(start, end)`, both inclusive, that a `Range` header
/// value asks of a file of `file_size` bytes; `None` when the value is not
/// understood, when the range is empty, or when the file is empty (it has
/// no byte to give), which makes the whole file be served.
pub open spec fn range_of(header: Seq<char>, file_size: u64) -> Option<(u64, u64)> {
    if file_size == 0 || header.len() < 6 || header.take(6) != bytes_unit_prefix() {
        None
    } else {
        let rest = header.skip(6);
        match parse_u64_spec(before_first_dash(rest)) {
            None => None,
            Some(start) => {
                let last = (file_size - 1) as u64;
                match requested_end(after_first_dash(rest), last) {
                    None => None,
                    Some(asked) => {
                        let end = if asked < last { asked } else { last };
                        if start > end {
                            None
                        } else {
                            Some((start, end))
                        }
                    },
                }
            },
        }
    }
}

/// Parses an HTTP `Range` header value into inclusive `(start, end)` byte
/// offsets within a file of `file_size` bytes.
///
/// `bytes=0-1048575` gives `Some((0, 1048575))`; `bytes=1048576-` and
/// `bytes=0-` run to the last byte of the file; an end beyond the file is
/// cut to its last byte. A malformed value, and any value for an empty
/// file, gives `None`.
pub fn parse_range(range: &str, file_size: u64) -> (out: Option<(u64, u64)>)
    ensures
        out == range_of(range@, file_size),
        out matches Some((s, e)) ==> s <= e < file_size,
{
    if file_size == 0 {
        return None;
    }
    let cs = chars_of(range);
    let n = cs.len();
    if n < 6 || !(cs[0] == 'b' && cs[1] == 'y' && cs[2] == 't' && cs[3] == 'e' && cs[4] == 's'
        && cs[5] == '=') {
        proof {
            if n >= 6 {
                assert(range@.take(6) != bytes_unit_prefix()) by {
                    if range@.take(6) == bytes_unit_prefix() {
                        assert(range@.take(6)[0] == 'b');
                        assert(range@.take(6)[1] == 'y');
                        assert(range@.take(6)[2] == 't');
                        assert(range@.take(6)[3] == 'e');
                        assert(range@.take(6)[4] == 's');
                        assert(range@.take(6)[5] == '=');
                    }
                }
            }
        }
        return None;
    }
    assert(range@.take(6) =~= bytes_unit_prefix());
    let ghost rest = range@.skip(6);
    let dash = find_char_from(cs.as_slice(), '-', 6);
    proof {
        lemma_first_index(rest, '-', dash - 6);
    }
    let first = slice_subrange(cs.as_slice(), 6, dash);
    assert(first@ =~= before_first_dash(rest));
    let start = match parse_u64(first) {
        Some(v) => v,
        None => {
            return None;
        },
    };
    let last = file_size - 1;
    let asked = if dash < n {
        let second = slice_subrange(cs.as_slice(), dash + 1, n);
        assert(second@ =~= rest.skip(dash - 6 + 1));
        if second.len() == 0 {
            last
        } else {
            match parse_u64(second) {
                Some(v) => v,
                None => {
                    return None;
                },
            }
        }
    } else {
        last
    };
    assert(requested_end(after_first_dash(rest), last) == Some(asked));
    let end = if asked < last {
        asked
    } else {
        last
    };
    if start > end {
        None
    } else {
        Some((start, end))
    }
}


/// The header value `bytes=<start>-<end>`, numbers in decimal.
pub open spec fn closed_range_header(start: u64, end: u64) -> Seq<char> {
    bytes_unit_prefix() + decimal(start as nat) + seq!['-'] + decimal(end as nat)
}

/// The header value `bytes=<start>-`, open towards the end of the file.
pub open spec fn open_range_header(start: u64) -> Seq<char> {
    bytes_unit_prefix() + decimal(start as nat) + seq!['-']
}

proof fn lemma_split_at_dash(start: u64, tail: Seq<char>)
    ensures
        before_first_dash(decimal(start as nat) + seq!['-'] + tail) == decimal(start as nat),
        after_first_dash(decimal(start as nat) + seq!['-'] + tail) == Some(tail),
{
    lemma_decimal_shape(start as nat);
    let d = decimal(start as nat);
    let s = d + seq!['-'] + tail;
    assert forall|j: int| 0 <= j < d.len() implies s[j] != '-' by {
        assert(s[j] == d[j]);
        assert(is_digit(d[j]));
    }
    lemma_first_index(s, '-', d.len() as int);
    assert(s.take(d.len() as int) =~= d);
    assert(s.skip(d.len() as int + 1) =~= tail);
}

/// Law: a well-formed closed range `bytes=<start>-<end>` is read back as the
/// range it names, with its end cut to the file's last byte; it is refused
/// only when it starts beyond that cut end.
pub proof fn lemma_closed_range_read_back(start: u64, end: u64, file_size: u64)
    requires
        file_size > 0,
    ensures
        ({
            let last = (file_size - 1) as u64;
            let cut = if end < last { end } else { last };
            range_of(closed_range_header(start, end), file_size) == if start <= cut {
                Some((start, cut))
            } else {
                None
            }
        }),
{
    let h = closed_range_header(start, end);
    let rest = decimal(start as nat) + seq!['-'] + decimal(end as nat);
    assert(h.take(6) =~= bytes_unit_prefix());
    assert(h.skip(6) =~= rest);
    lemma_split_at_dash(start, decimal(end as nat));
    lemma_parse_decimal_roundtrip(start);
    lemma_parse_decimal_roundtrip(end);
    lemma_decimal_shape(end as nat);
}

/// Law: an open range `bytes=<start>-` runs to the last byte of the file,
/// and is refused only when it starts beyond that byte.
pub proof fn lemma_open_range_runs_to_end(start: u64, file_size: u64)
    requires
        file_size > 0,
    ensures
        range_of(open_range_header(start), file_size) == if start < file_size {
            Some((start, (file_size - 1) as u64))
        } else {
            None
        },
{
    let h = open_range_header(start);
    let rest = decimal(start as nat) + seq!['-'] + Seq::<char>::empty();
    assert(h.take(6) =~= bytes_unit_prefix());
    assert(h.skip(6) =~= rest);
    lemma_split_at_dash(start, Seq::<char>::empty());
    lemma_parse_decimal_roundtrip(start);
}

/// Law: an empty file has no byte range to give; every header value asks
/// for the whole (empty) file.
pub proof fn lemma_empty_file_has_no_range(header: Seq<char>)
    ensures
        range_of(header, 0) is None,
{
}

/// Law: a `bytes=<start>-<text>` value whose text is present but not a
/// number is malformed.
pub proof fn lemma_unreadable_end_is_malformed(start: u64, tail: Seq<char>, file_size: u64)
    requires
        tail.len() > 0,
        parse_u64_spec(tail) is None,
    ensures
        range_of(open_range_header(start) + tail, file_size) is None,
{
    if file_size > 0 {
        let h = open_range_header(start) + tail;
        let rest = decimal(start as nat) + seq!['-'] + tail;
        assert(h.take(6) =~= bytes_unit_prefix());
        assert(h.skip(6) =~= rest);
        lemma_split_at_dash(start, tail);
    }
}

/// Law: whatever the header value, an accepted range lies inside the file.
pub proof fn lemma_range_within_file(header: Seq<char>, file_size: u64)
    ensures
        range_of(header, file_size) matches Some((s, e)) ==> s <= e < file_size,
{
}

} // verus!
