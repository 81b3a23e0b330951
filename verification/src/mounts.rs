//! The mount table reader: turns the kernel's text listing of active mounts
//! into the ordered sequence of mount-point paths.
//!
//! The kernel lists one mount per line, fields separated by single spaces,
//! with the mount-point path as the second field. The order of the lines is
//! the order in which the filesystems were mounted, which is why the caller
//! must not reorder the result: shutdown unmounts in its exact reverse.

use vstd::prelude::*;

verus! {

/// The byte that separates lines in the kernel's mount listing.
pub const LINE_SEP: u8 = 10;

/// The byte that separates fields within a line.
pub const FIELD_SEP: u8 = 32;

/// The first index in `[from, to)` where `s` holds the byte `c`, or `to` if
/// there is none.
pub open spec fn find_in(s: Seq<u8>, c: u8, from: int, to: int) -> int
    recommends
        0 <= from <= to <= s.len(),
    decreases to - from,
{
    if from >= to {
        to
    } else if s[from] == c {
        from
    } else {
        find_in(s, c, from + 1, to)
    }
}

/// The result of `find_in` lies between `from` and `to`.
pub proof fn lemma_find_in_bounds(s: Seq<u8>, c: u8, from: int, to: int)
    requires
        from <= to,
    ensures
        from <= find_in(s, c, from, to) <= to,
    decreases to - from,
{
    if from < to && s[from] != c {
        lemma_find_in_bounds(s, c, from + 1, to);
    }
}

/// The second space-separated field of the line `s[from..to]`, or `None` if
/// the line has no first field terminated by a space. A second field that no
/// further space terminates runs to the end of the line.
pub open spec fn line_target(s: Seq<u8>, from: int, to: int) -> Option<Seq<u8>>
    recommends
        0 <= from <= to <= s.len(),
{
    let a = find_in(s, FIELD_SEP, from, to);
    if a == to {
        None
    } else {
        Some(s.subrange(a + 1, find_in(s, FIELD_SEP, a + 1, to)))
    }
}

/// The mount-point paths of all lines of `s` that start at or after `from`,
/// in line order.
pub open spec fn targets_from(s: Seq<u8>, from: int) -> Seq<Seq<u8>>
    recommends
        0 <= from <= s.len(),
    decreases s.len() - from,
        via targets_from_decreases
{
    if from >= s.len() {
        Seq::empty()
    } else {
        let line_end = find_in(s, LINE_SEP, from, s.len() as int);
        let cur = match line_target(s, from, line_end) {
            Option::Some(t) => seq![t],
            Option::None => Seq::<Seq<u8>>::empty(),
        };
        if line_end >= s.len() {
            cur
        } else {
            cur + targets_from(s, line_end + 1)
        }
    }
}

#[via_fn]
proof fn targets_from_decreases(s: Seq<u8>, from: int) {
    if from < s.len() {
        lemma_find_in_bounds(s, LINE_SEP, from, s.len() as int);
    }
}

/// The ordered sequence of mount-point paths in the mount listing `s`:
/// the second field of each line, lines without two fields skipped.
pub open spec fn mount_targets(s: Seq<u8>) -> Seq<Seq<u8>> {
    targets_from(s, 0)
}

/// The views of a parsed list of paths.
pub open spec fn views_of(v: Seq<Vec<u8>>) -> Seq<Seq<u8>> {
    v.map_values(|p: Vec<u8>| p@)
}

/// Finds the first occurrence of `c` in `text[from..to]`, or returns `to`.
fn find_byte(text: &Vec<u8>, c: u8, from: usize, to: usize) -> (r: usize)
    requires
        from <= to <= text@.len(),
    ensures
        r == find_in(text@, c, from as int, to as int),
        from <= r <= to,
    decreases to - from,
{
    if from >= to {
        to
    } else if text[from] == c {
        from
    } else {
        find_byte(text, c, from + 1, to)
    }
}

/// Copies `text[from..to]` out as an owned path.
fn copy_range(text: &Vec<u8>, from: usize, to: usize) -> (r: Vec<u8>)
    requires
        from <= to <= text@.len(),
    ensures
        r@ == text@.subrange(from as int, to as int),
{
    let mut out: Vec<u8> = Vec::new();
    let mut j: usize = from;
    while j < to
        invariant
            from <= j <= to <= text@.len(),
            out@ == text@.subrange(from as int, j as int),
        decreases to - j,
    {
        out.push(text[j]);
        proof {
            assert(out@ =~= text@.subrange(from as int, j + 1));
        }
        j += 1;
    }
    out
}

/// Parses the kernel's mount listing into the ordered sequence of
/// mount-point paths, exactly the second field of each line.
pub fn parse_mount_targets(text: &Vec<u8>) -> (r: Vec<Vec<u8>>)
    ensures
        views_of(r@) == mount_targets(text@),
{
    let mut out: Vec<Vec<u8>> = Vec::new();
    let len = text.len();
    let mut i: usize = 0;
    proof {
        assert(views_of(out@) =~= Seq::<Seq<u8>>::empty());
    }
    while i < len
        invariant
            0 <= i <= len,
            len == text@.len(),
            views_of(out@) + targets_from(text@, i as int) == mount_targets(text@),
        decreases len - i,
    {
        let ghost prev_out = out@;
        let line_end = find_byte(text, LINE_SEP, i, len);
        let a = find_byte(text, FIELD_SEP, i, line_end);
        if a < line_end {
            let b = find_byte(text, FIELD_SEP, a + 1, line_end);
            let field = copy_range(text, a + 1, b);
            out.push(field);
            proof {
                assert(line_target(text@, i as int, line_end as int)
                    == Option::Some(text@.subrange(a + 1, b as int)));
                assert(views_of(out@)
                    =~= views_of(prev_out) + seq![text@.subrange(a + 1, b as int)]);
            }
        } else {
            proof {
                assert(line_target(text@, i as int, line_end as int)
                    == Option::<Seq<u8>>::None);
            }
        }
        proof {
            let s = text@;
            let li = i as int;
            let le = line_end as int;
            let cur = match line_target(s, li, le) {
                Option::Some(t) => seq![t],
                Option::None => Seq::<Seq<u8>>::empty(),
            };
            assert(views_of(out@) =~= views_of(prev_out) + cur);
            if le >= s.len() {
                assert(targets_from(s, li) == cur);
                assert(views_of(out@) + Seq::<Seq<u8>>::empty() =~= views_of(out@));
                assert(views_of(out@) =~= views_of(prev_out) + targets_from(s, li));
            } else {
                assert(targets_from(s, li) == cur + targets_from(s, le + 1));
                assert(views_of(out@) + targets_from(s, le + 1)
                    =~= views_of(prev_out) + targets_from(s, li));
            }
        }
        if line_end >= len {
            i = len;
            proof {
                assert(targets_from(text@, i as int) =~= Seq::<Seq<u8>>::empty());
                assert(views_of(out@) + Seq::<Seq<u8>>::empty() =~= views_of(out@));
            }
        } else {
            i = line_end + 1;
        }
    }
    proof {
        assert(targets_from(text@, i as int) =~= Seq::<Seq<u8>>::empty());
        assert(views_of(out@) + Seq::<Seq<u8>>::empty() =~= views_of(out@));
    }
    out
}

} // verus!
