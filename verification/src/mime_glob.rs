use vstd::prelude::*;

verus! {

broadcast use crate::lemma_bytes_deep_view;

/// The position of the first occurrence of the byte at or past `i`, or the
/// length where there is none.
pub open spec fn find_byte(s: Seq<u8>, i: int, b: u8) -> int
    decreases s.len() - i
    when 0 <= i <= s.len()
{
    if i >= s.len() {
        s.len() as int
    } else if s[i] == b {
        i
    } else {
        find_byte(s, i + 1, b)
    }
}

/// What `find_byte` returns: the first position holding the byte, at or
/// past the start, or the length.
pub proof fn lemma_find_byte(s: Seq<u8>, i: int, b: u8)
    requires
        0 <= i <= s.len(),
    ensures
        i <= find_byte(s, i, b) <= s.len(),
        find_byte(s, i, b) < s.len() ==> s[find_byte(s, i, b)] == b,
        forall|k: int| i <= k < find_byte(s, i, b) ==> s[k] != b,
    decreases s.len() - i,
{
    if i < s.len() && s[i] != b {
        lemma_find_byte(s, i + 1, b);
    }
}

/// What a MIME glob table's bytes hold from position `i` on: each line
/// `mime:pattern` ended by a newline yields its pair, a line opened with
/// `#` is skipped, and the scan ends at the table's end, at a line without
/// a separating colon, or at an unterminated line.
pub open spec fn glob_pairs(s: Seq<u8>, i: int) -> Seq<(Seq<u8>, Seq<u8>)>
    decreases s.len() - i
    when 0 <= i <= s.len()
    via glob_pairs_dec
{
    if i >= s.len() {
        Seq::empty()
    } else if s[i] == 35u8 {
        let e = find_byte(s, i, 10u8);
        if e < s.len() {
            glob_pairs(s, e + 1)
        } else {
            Seq::empty()
        }
    } else {
        let c = find_byte(s, i, 58u8);
        if c >= s.len() {
            Seq::empty()
        } else if c + 1 >= s.len() {
            Seq::empty()
        } else {
            let e = find_byte(s, c + 1, 10u8);
            if e >= s.len() {
                Seq::empty()
            } else {
                seq![(s.subrange(i, c), s.subrange(c + 1, e))] + glob_pairs(s, e + 1)
            }
        }
    }
}

#[via_fn]
proof fn glob_pairs_dec(s: Seq<u8>, i: int) {
    if 0 <= i < s.len() {
        if s[i] == 35u8 {
            lemma_find_byte(s, i, 10u8);
        } else {
            lemma_find_byte(s, i, 58u8);
            let c = find_byte(s, i, 58u8);
            if c < s.len() && c + 1 < s.len() {
                lemma_find_byte(s, c + 1, 10u8);
            }
        }
    }
}

/// Looks for the byte from the given position on; reports the table's
/// length where it does not occur.
fn find_from(slice: &[u8], start: usize, b: u8) -> (r: usize)
    requires
        start <= slice@.len(),
    ensures
        r == find_byte(slice@, start as int, b),
{
    let mut i: usize = start;
    while i < slice.len()
        invariant
            start <= i <= slice@.len(),
            find_byte(slice@, start as int, b) == find_byte(slice@, i as int, b),
        decreases slice@.len() - i,
    {
        if slice[i] == b {
            return i;
        }
        proof {
            assert(find_byte(slice@, i as int, b) == find_byte(slice@, i + 1, b));
        }
        i += 1;
    }
    i
}

/// Copies part of the table out.
fn copy_range(slice: &[u8], from: usize, to: usize) -> (r: Vec<u8>)
    requires
        from <= to <= slice@.len(),
    ensures
        r@ == slice@.subrange(from as int, to as int),
{
    let mut r: Vec<u8> = Vec::new();
    let mut i: usize = from;
    while i < to
        invariant
            from <= i <= to <= slice@.len(),
            r@ =~= slice@.subrange(from as int, i as int),
        decreases to - i,
    {
        r.push(slice[i]);
        proof {
            assert(r@ =~= slice@.subrange(from as int, i + 1));
        }
        i += 1;
    }
    r
}

/// Reads a MIME glob table: one `mime:pattern` pair per newline-ended line,
/// with `#`-opened lines skipped; the scan stops quietly at the first line
/// that fits neither.
pub fn parse_mime_glob(slice: &[u8]) -> (r: Vec<(Vec<u8>, Vec<u8>)>)
    ensures
        r.deep_view() == glob_pairs(slice@, 0),
{
    let mut out: Vec<(Vec<u8>, Vec<u8>)> = Vec::new();
    let mut line_start: usize = 0;
    proof {
        assert(glob_pairs(slice@, 0) =~= out.deep_view() + glob_pairs(slice@, 0));
    }
    loop
        invariant
            line_start <= slice@.len(),
            glob_pairs(slice@, 0) == out.deep_view() + glob_pairs(slice@, line_start as int),
        decreases slice@.len() - line_start,
    {
        if line_start == slice.len() {
            proof {
                assert(out.deep_view() + glob_pairs(slice@, line_start as int) =~= out.deep_view());
            }
            return out;
        }
        if slice[line_start] == 35u8 {
            let e = find_from(slice, line_start, 10u8);
            proof {
                lemma_find_byte(slice@, line_start as int, 10u8);
            }
            if e < slice.len() {
                proof {
                    assert(glob_pairs(slice@, line_start as int) == glob_pairs(slice@, e + 1));
                }
                line_start = e + 1;
                continue ;
            } else {
                proof {
                    assert(glob_pairs(slice@, line_start as int) =~= Seq::<(
                        Seq<u8>,
                        Seq<u8>,
                    )>::empty());
                    assert(out.deep_view() + glob_pairs(slice@, line_start as int)
                        =~= out.deep_view());
                }
                return out;
            }
        }
        let c = find_from(slice, line_start, 58u8);
        proof {
            lemma_find_byte(slice@, line_start as int, 58u8);
        }
        if c == slice.len() || c + 1 == slice.len() {
            proof {
                assert(glob_pairs(slice@, line_start as int) =~= Seq::<(Seq<u8>, Seq<u8>)>::empty());
                assert(out.deep_view() + glob_pairs(slice@, line_start as int) =~= out.deep_view());
            }
            return out;
        }
        let e = find_from(slice, c + 1, 10u8);
        proof {
            lemma_find_byte(slice@, c + 1, 10u8);
        }
        if e == slice.len() {
            proof {
                assert(glob_pairs(slice@, line_start as int) =~= Seq::<(Seq<u8>, Seq<u8>)>::empty());
                assert(out.deep_view() + glob_pairs(slice@, line_start as int) =~= out.deep_view());
            }
            return out;
        }
        let ghost old_out = out.deep_view();
        let mime = copy_range(slice, line_start, c);
        let reg = copy_range(slice, c + 1, e);
        out.push((mime, reg));
        proof {
            let pair = (slice@.subrange(line_start as int, c as int), slice@.subrange(
                c + 1,
                e as int,
            ));
            assert(out.deep_view() =~= old_out + seq![pair]);
            assert(glob_pairs(slice@, line_start as int) == seq![pair] + glob_pairs(slice@, e + 1));
            assert(out.deep_view() + glob_pairs(slice@, e + 1) =~= old_out + glob_pairs(
                slice@,
                line_start as int,
            ));
        }
        line_start = e + 1;
    }
}

} // verus!
