//! Numbers, process ids and paths: what is written can be read again, and different things are
//! written differently.

use crate::path::{joined, kept_pieces, key, split_on};
use crate::pid::{all_digits, digits_value, is_white, pid_in, pid_text, trimmed};
use crate::text::decimal;
use vstd::prelude::*;
use vstd::string::*;

verus! {

/// A number in decimal ends in its last digit, behind the digits of a tenth of it, and consists of
/// the characters from `0` to `9`.
pub proof fn decimals_are_written_digit_by_digit(n: nat)
    ensures
        decimal(n).len() > 0,
        decimal(n).last() as u32 == 48 + n % 10,
        n >= 10 ==> decimal(n).drop_last() == decimal(n / 10),
        n < 10 ==> decimal(n).len() == 1,
        forall|k: int|
            0 <= k < decimal(n).len() ==> '0' <= #[trigger] decimal(n)[k] <= '9',
    decreases n,
{
    if n >= 10 {
        decimals_are_written_digit_by_digit(n / 10);
        assert(decimal(n).drop_last() =~= decimal(n / 10));
        assert forall|k: int| 0 <= k < decimal(n).len() implies '0' <= #[trigger] decimal(
            n,
        )[k] <= '9' by {
            if k < decimal(n / 10).len() {
                assert(decimal(n)[k] == decimal(n / 10)[k]);
            }
        }
    }
}

/// Different numbers are written differently.
pub proof fn decimals_can_be_told_apart(a: nat, b: nat)
    requires
        decimal(a) == decimal(b),
    ensures
        a == b,
    decreases a,
{
    decimals_are_written_digit_by_digit(a);
    decimals_are_written_digit_by_digit(b);
    if a >= 10 && b >= 10 {
        decimals_can_be_told_apart(a / 10, b / 10);
    } else if a >= 10 {
        decimals_are_written_digit_by_digit(a / 10);
    } else if b >= 10 {
        decimals_are_written_digit_by_digit(b / 10);
    }
}

/// Digits are read as they are written: one more digit makes the number ten times as large, and
/// adds the digit.
pub proof fn digits_are_read_one_by_one(digits: Seq<char>, digit: char)
    requires
        '0' <= digit <= '9',
    ensures
        digits_value(Seq::empty()) == 0,
        digits_value(digits.push(digit)) == 10 * digits_value(digits) + (digit as u32 - 48),
{
    assert(digits.push(digit).drop_last() =~= digits);
}

/// White space around a process id does not matter.
pub proof fn white_space_is_ignored(text: Seq<char>, white: char)
    requires
        white == ' ' || white == '\n' || white == '\t' || white == '\r',
    ensures
        pid_in(text.push(white)) == pid_in(text),
        pid_in(seq![white] + text) == pid_in(text),
{
    assert(is_white(white));
    lemma_white_behind(text, white);
    assert((seq![white] + text).skip(1) =~= text);
}

proof fn lemma_white_behind(text: Seq<char>, white: char)
    requires
        is_white(white),
    ensures
        trimmed(text.push(white)) == trimmed(text),
    decreases text.len(),
{
    let longer = text.push(white);
    if text.len() == 0 {
        assert(longer.skip(1) =~= Seq::<char>::empty());
        assert(text =~= Seq::<char>::empty());
    } else if is_white(text[0]) {
        assert(longer[0] == text[0]);
        assert(longer.skip(1) =~= text.skip(1).push(white));
        lemma_white_behind(text.skip(1), white);
    } else {
        assert(longer[0] == text[0]);
        assert(longer.drop_last() =~= text);
    }
}

/// Digits alone are read as the number that they write, where that is in range; a minus sign makes
/// it negative, and a plus sign changes nothing. Anything else is no process id.
pub proof fn process_ids_are_read(digits: Seq<char>)
    requires
        all_digits(digits),
    ensures
        pid_in(digits) == (if digits_value(digits) <= 2147483647 {
            Some(digits_value(digits) as i32)
        } else {
            None
        }),
        pid_in(seq!['-'] + digits) == (if digits_value(digits) <= 2147483648 {
            Some((-digits_value(digits)) as i32)
        } else {
            None
        }),
        pid_in(seq!['+'] + digits) == pid_in(digits),
        pid_in(Seq::empty()) is None,
{
    let minus = seq!['-'] + digits;
    let plus = seq!['+'] + digits;
    assert(minus.skip(1) =~= digits);
    assert(plus.skip(1) =~= digits);
    assert(crate::pid::is_digit(digits[0]));
    assert(crate::pid::is_digit(digits[digits.len() - 1]));
    assert(digits.last() == minus.last() && digits.last() == plus.last());
    assert(trimmed(digits) == digits);
    assert(trimmed(minus) == minus);
    assert(trimmed(plus) == plus);
}

/// Different processes are written differently.
pub proof fn process_ids_can_be_told_apart(a: nat, b: nat)
    requires
        pid_text(a as int) == pid_text(b as int),
    ensures
        a == b,
{
    decimals_can_be_told_apart(a, b);
}

/// A path that is put behind another one ends the result. An absolute one stands alone; before any
/// other one stands the first path, with one separator between them where it needs one.
pub proof fn joined_paths(base: Seq<u8>, tail: Seq<u8>)
    ensures
        ({
            let all = joined(base, tail);
            &&& tail.is_suffix_of(all)
            &&& tail.len() > 0 && tail[0] == 47 ==> all == tail
            &&& !(tail.len() > 0 && tail[0] == 47) ==> {
                &&& base.is_prefix_of(all)
                &&& all.len() == base.len() + tail.len() + (if base.len() > 0 && base.last() != 47 {
                    1int
                } else {
                    0
                })
                &&& base.len() > 0 && base.last() != 47 ==> all[base.len() as int] == 47
            }
        }),
{
    let all = joined(base, tail);
    assert(all.subrange(all.len() - tail.len(), all.len() as int) =~= tail);
    if !(tail.len() > 0 && tail[0] == 47) {
        assert(all.subrange(0, base.len() as int) =~= base);
    }
}

/// A separator at the end of a path, or a dot behind that, writes the same path; a path from the
/// root is never the same as one that is not.
pub proof fn paths_have_several_spellings(path: Seq<u8>, other: Seq<u8>)
    requires
        path.len() > 0,
    ensures
        key(path.push(47)) == key(path),
        key(path.push(47).push(46)) == key(path),
        path[0] == 47 && !(other.len() > 0 && other[0] == 47) ==> key(path) != key(other),
{
    let with_slash = path.push(47);
    let with_dot = with_slash.push(46);
    assert(with_slash.drop_last() =~= path);
    assert(with_dot.drop_last() =~= with_slash);
    let pieces = crate::path::split_on(path, 47);
    lemma_pieces(path, 47);
    let more = pieces.push(Seq::<u8>::empty());
    assert(crate::path::split_on(with_slash, 47) == more);
    assert(more.drop_last() =~= pieces);
    assert(more.last() =~= Seq::<u8>::empty());
    let dotted = pieces.push(Seq::<u8>::empty().push(46));
    assert(crate::path::split_on(with_dot, 47) =~= dotted);
    assert(dotted.drop_last() =~= pieces);
    assert(Seq::<u8>::empty().push(46u8) =~= seq![46u8]);
}

/// The pieces of a path between its separators hold no separator, and joined by separators they
/// are the path again, so that as many bytes are there as pieces and separators have.
pub proof fn paths_are_cut_at_separators(path: Seq<u8>, separator: u8)
    ensures
        forall|k: int|
            0 <= k < split_on(path, separator).len() ==> !(#[trigger] split_on(
                path,
                separator,
            )[k]).contains(separator),
        put_together(split_on(path, separator), separator) == path,
    decreases path.len(),
{
    let pieces = split_on(path, separator);
    if path.len() == 0 {
        assert(pieces.drop_last() =~= Seq::<Seq<u8>>::empty());
        assert(put_together(pieces, separator) =~= path);
    } else {
        let front = path.drop_last();
        let before = split_on(front, separator);
        paths_are_cut_at_separators(front, separator);
        lemma_pieces(front, separator);
        if path.last() == separator {
            assert(pieces.drop_last() =~= before);
            assert forall|k: int| 0 <= k < pieces.len() implies !(#[trigger] pieces[k]).contains(
                separator,
            ) by {
                if k < before.len() {
                    assert(pieces[k] == before[k]);
                }
            }
            assert(put_together(pieces, separator) =~= front.push(separator));
        } else {
            let longer = before.last().push(path.last());
            assert(pieces.drop_last() =~= before.drop_last());
            assert(pieces.last() =~= longer);
            assert forall|k: int| 0 <= k < pieces.len() implies !(#[trigger] pieces[k]).contains(
                separator,
            ) by {
                assert(!before[k].contains(separator));
                if k == pieces.len() - 1 && longer.contains(separator) {
                    let j = choose|j: int| 0 <= j < longer.len() && longer[j] == separator;
                    assert(before.last()[j] == separator);
                }
            }
            assert(put_together(pieces, separator) =~= put_together(before, separator).push(
                path.last(),
            ));
        }
        assert(path =~= front.push(path.last()));
    }
}

/// The pieces with the separator between them.
pub open spec fn put_together(pieces: Seq<Seq<u8>>, separator: u8) -> Seq<u8>
    decreases pieces.len(),
{
    if pieces.len() == 0 {
        Seq::empty()
    } else if pieces.len() == 1 {
        pieces[0]
    } else {
        put_together(pieces.drop_last(), separator).push(separator) + pieces.last()
    }
}

proof fn lemma_pieces(path: Seq<u8>, separator: u8)
    ensures
        split_on(path, separator).len() > 0,
    decreases path.len(),
{
    if path.len() > 0 {
        lemma_pieces(path.drop_last(), separator);
    }
}

/// Of the pieces of a path those that are neither empty nor a lone dot are its components, in
/// their order; a lone dot counts at the start alone.
pub proof fn components_are_pieces(pieces: Seq<Seq<u8>>, piece: Seq<u8>)
    ensures
        kept_pieces(Seq::empty()).len() == 0,
        piece.len() == 0 ==> kept_pieces(pieces.push(piece)) == kept_pieces(pieces),
        piece == seq![46u8] && pieces.len() > 0 ==> kept_pieces(pieces.push(piece)) == kept_pieces(
            pieces,
        ),
        piece == seq![46u8] && pieces.len() == 0 ==> kept_pieces(pieces.push(piece)) == seq![piece],
        piece.len() > 0 && piece != seq![46u8] ==> kept_pieces(pieces.push(piece)) == kept_pieces(
            pieces,
        ).push(piece),
{
    assert(pieces.push(piece).drop_last() =~= pieces);
    if pieces.len() == 0 {
        assert(pieces =~= Seq::<Seq<u8>>::empty());
        assert(kept_pieces(pieces).push(piece) =~= seq![piece]);
    }
}

/// Paths whose components differ are different paths.
pub proof fn paths_can_be_told_apart(a: Seq<u8>, b: Seq<u8>)
    requires
        key(a) == key(b),
    ensures
        crate::path::components(a) == crate::path::components(b),
        (a.len() > 0 && a[0] == 47) == (b.len() > 0 && b[0] == 47),
{
}

} // verus!
