//! The method tag: the shift that a file was encoded with, kept in its name.
//!
//! An encoded file is named `<shift>c.<name>`, the shift in decimal. Removing
//! the tag removes the first dot-delimited segment of a name, whatever it
//! holds; [`lemma_strip_undoes_tag`] shows that this gives back every name that
//! was tagged.

use vstd::prelude::*;
use vstd::string::*;

verus! {

/// The character that writes the decimal digit `d`.
pub open spec fn digit_char(d: int) -> char {
    if d == 0 {
        '0'
    } else if d == 1 {
        '1'
    } else if d == 2 {
        '2'
    } else if d == 3 {
        '3'
    } else if d == 4 {
        '4'
    } else if d == 5 {
        '5'
    } else if d == 6 {
        '6'
    } else if d == 7 {
        '7'
    } else if d == 8 {
        '8'
    } else {
        '9'
    }
}

/// `n` written in decimal, without leading zeros.
pub open spec fn decimal(n: nat) -> Seq<char>
    decreases n,
{
    if n < 10 {
        seq![digit_char(n as int)]
    } else {
        decimal(n / 10).push(digit_char(n as int % 10))
    }
}

/// The marker that ends a tag: the letter of the method and the delimiter.
pub open spec fn tag_marker() -> Seq<char> {
    seq!['c', '.']
}

/// The name that tagging makes of `name`.
pub open spec fn tagged(name: Seq<char>, shift: u8) -> Seq<char> {
    decimal(shift as nat) + tag_marker() + name
}

/// What is left of `name` behind its first dot; nothing where it has none.
pub open spec fn stripped(name: Seq<char>) -> Seq<char>
    decreases name.len(),
{
    if name.len() == 0 {
        name
    } else if name[0] == '.' {
        name.subrange(1, name.len() as int)
    } else {
        stripped(name.subrange(1, name.len() as int))
    }
}

/// The digit that `c` writes, if it writes one.
pub open spec fn digit_value(c: char) -> Option<int> {
    if c == '0' {
        Some(0)
    } else if c == '1' {
        Some(1)
    } else if c == '2' {
        Some(2)
    } else if c == '3' {
        Some(3)
    } else if c == '4' {
        Some(4)
    } else if c == '5' {
        Some(5)
    } else if c == '6' {
        Some(6)
    } else if c == '7' {
        Some(7)
    } else if c == '8' {
        Some(8)
    } else if c == '9' {
        Some(9)
    } else {
        None
    }
}

/// The number that `digits` write in decimal, a character that is no digit
/// counting as 0.
pub open spec fn number_of(digits: Seq<char>) -> nat
    decreases digits.len(),
{
    if digits.len() == 0 {
        0
    } else {
        let last = match digit_value(digits.last()) {
            Some(d) => d as nat,
            None => 0,
        };
        number_of(digits.drop_last()) * 10 + last
    }
}

/// Whether `digits` is the way a number is written: one digit or more, all of
/// them digits, and no leading zero before another digit.
pub open spec fn is_canonical(digits: Seq<char>) -> bool {
    &&& digits.len() >= 1
    &&& forall|i: int| 0 <= i < digits.len() ==> digit_value(#[trigger] digits[i]) is Some
    &&& digits.len() > 1 ==> digits[0] != '0'
}

/// Whether `name` starts with the tag of `shift`: the shift in decimal, the
/// letter `c` and a dot.
pub open spec fn has_tag(name: Seq<char>, shift: u8) -> bool {
    (decimal(shift as nat) + tag_marker()).is_prefix_of(name)
}

/// The text of one decimal digit.
fn digit_text(d: u8) -> (text: &'static str)
    requires
        d < 10,
    ensures
        text@ == seq![digit_char(d as int)],
{
    proof {
        reveal_strlit("0");
        reveal_strlit("1");
        reveal_strlit("2");
        reveal_strlit("3");
        reveal_strlit("4");
        reveal_strlit("5");
        reveal_strlit("6");
        reveal_strlit("7");
        reveal_strlit("8");
        reveal_strlit("9");
    }
    let text = if d == 0 {
        "0"
    } else if d == 1 {
        "1"
    } else if d == 2 {
        "2"
    } else if d == 3 {
        "3"
    } else if d == 4 {
        "4"
    } else if d == 5 {
        "5"
    } else if d == 6 {
        "6"
    } else if d == 7 {
        "7"
    } else if d == 8 {
        "8"
    } else {
        "9"
    };
    assert(text@ =~= seq![digit_char(d as int)]);
    text
}

/// Writes a number in decimal.
pub fn decimal_text(n: u8) -> (text: String)
    ensures
        text@ == decimal(n as nat),
{
    let mut text = String::new();
    if n >= 100 {
        text.append(digit_text(n / 100));
    }
    if n >= 10 {
        text.append(digit_text((n / 10) % 10));
    }
    text.append(digit_text(n % 10));
    proof {
        reveal_with_fuel(decimal, 3);
        assert(text@ =~= decimal(n as nat));
    }
    text
}

/// Names the file that holds `name` encoded with `shift`: the shift in
/// decimal, the letter `c`, a dot, and the name.
pub fn tag_for_encrypt(name: &str, shift: u8) -> (out: String)
    ensures
        out@ == tagged(name@, shift),
{
    let mut out = decimal_text(shift);
    proof {
        reveal_strlit("c.");
    }
    out.append("c.");
    out.append(name);
    assert(out@ =~= tagged(name@, shift));
    out
}

/// Removes the tag: gives what follows the first dot of `name`, and the empty
/// name where there is no dot.
pub fn strip_for_decrypt(name: &str) -> (out: String)
    ensures
        out@ == stripped(name@),
{
    let len = name.unicode_len();
    let mut i: usize = 0;
    assert(name@.subrange(0, len as int) =~= name@);
    while i < len
        invariant
            len == name@.len(),
            i <= len,
            stripped(name@) == stripped(name@.subrange(i as int, len as int)),
        decreases len - i,
    {
        let ghost rest = name@.subrange(i as int, len as int);
        if name.get_char(i) == '.' {
            assert(stripped(rest) =~= name@.subrange(i + 1, len as int));
            return String::from_str(name.substring_char(i + 1, len));
        }
        assert(rest.subrange(1, rest.len() as int) =~= name@.subrange(i + 1, len as int));
        i += 1;
    }
    assert(name@.subrange(len as int, len as int) =~= Seq::<char>::empty());
    String::new()
}

/// The digit that a character writes.
fn digit_of(c: char) -> (digit: Option<u8>)
    ensures
        match digit {
            Some(d) => digit_value(c) == Some(d as int) && d < 10,
            None => digit_value(c) is None,
        },
{
    if c == '0' {
        Some(0)
    } else if c == '1' {
        Some(1)
    } else if c == '2' {
        Some(2)
    } else if c == '3' {
        Some(3)
    } else if c == '4' {
        Some(4)
    } else if c == '5' {
        Some(5)
    } else if c == '6' {
        Some(6)
    } else if c == '7' {
        Some(7)
    } else if c == '8' {
        Some(8)
    } else if c == '9' {
        Some(9)
    } else {
        None
    }
}

/// Reads the tag of a name: the shift that the name says its file was
/// encoded with. The answer is `Some` exactly for a name that starts with the
/// tag of a shift, and is that shift; by [`lemma_tag_is_unique`] there is one
/// at most.
pub fn read_tag(name: &str) -> (shift: Option<u8>)
    ensures
        match shift {
            Some(s) => has_tag(name@, s),
            None => forall|s: u8| !has_tag(name@, s),
        },
{
    let len = name.unicode_len();
    let mut count: usize = 0;
    let mut value: u16 = 0;
    let mut more = true;
    while more && count < len && count < 3
        invariant
            len == name@.len(),
            count <= len,
            count <= 3,
            value == number_of(name@.subrange(0, count as int)),
            value <= 999,
            count < 3 ==> value <= 99,
            forall|i: int| 0 <= i < count ==> digit_value(#[trigger] name@[i]) is Some,
            !more ==> count < len && digit_value(name@[count as int]) is None,
        decreases len - count, more as int,
    {
        match digit_of(name.get_char(count)) {
            Some(d) => {
                let ghost longer = name@.subrange(0, count + 1);
                assert(longer.drop_last() =~= name@.subrange(0, count as int));
                assert(count < 2 ==> value <= 9) by {
                    reveal_with_fuel(number_of, 3);
                }
                value = value * 10 + d as u16;
                count += 1;
            },
            None => {
                more = false;
            },
        }
    }
    let ghost digits = name@.subrange(0, count as int);
    let ok = count >= 1 && value <= 255 && (count == 1 || name.get_char(0) != '0') && count + 1
        < len && name.get_char(count) == 'c' && name.get_char(count + 1) == '.';
    if ok {
        proof {
            assert(is_canonical(digits));
            lemma_canonical_is_decimal(digits);
            assert((digits + tag_marker()) =~= name@.subrange(0, count + 2));
        }
        Some(value as u8)
    } else {
        proof {
            assert forall|s: u8| !has_tag(name@, s) by {
                if has_tag(name@, s) {
                    let written = decimal(s as nat);
                    let tag = written + tag_marker();
                    lemma_decimal_is_canonical(s as nat);
                    lemma_canonical_is_short(written);
                    assert(tag =~= name@.subrange(0, tag.len() as int));
                    assert forall|i: int| 0 <= i < written.len() implies name@[i]
                        == written[i] by {
                        assert(tag[i] == written[i]);
                    }
                    assert(name@[written.len() as int] == tag[written.len() as int]);
                    assert(name@[written.len() as int + 1] == tag[written.len() as int + 1]);
                    if count < written.len() {
                        assert(digit_value(written[count as int]) is Some);
                    } else if count > written.len() {
                        assert(digit_value(name@[written.len() as int]) is Some);
                    } else {
                        assert(digits =~= written);
                    }
                }
            }
        }
        None
    }
}

/// The decimal writing of a number is canonical, and it writes that number.
pub proof fn lemma_decimal_is_canonical(n: nat)
    ensures
        is_canonical(decimal(n)),
        number_of(decimal(n)) == n,
        n >= 10 ==> decimal(n).len() >= 2,
    decreases n,
{
    let written = decimal(n);
    if n >= 10 {
        lemma_decimal_is_canonical(n / 10);
        let head = decimal(n / 10);
        assert(written.drop_last() =~= head);
        assert(written.last() == digit_char(n as int % 10));
        assert(digit_value(written.last()) == Some(n as int % 10));
        assert forall|i: int| 0 <= i < written.len() implies digit_value(#[trigger] written[i])
            is Some by {
            if i < head.len() {
                assert(written[i] == head[i]);
            }
        }
        assert(written[0] == head[0]);
        if n / 10 < 10 {
            assert(head[0] == digit_char(n as int / 10));
        }
        assert(number_of(written) == number_of(head) * 10 + n % 10);
    } else {
        assert(written.drop_last() =~= Seq::<char>::empty());
        assert(digit_value(written.last()) == Some(n as int));
        assert(number_of(Seq::<char>::empty()) == 0);
    }
}

/// A canonical writing is the decimal writing of the number that it writes.
pub proof fn lemma_canonical_is_decimal(digits: Seq<char>)
    requires
        is_canonical(digits),
    ensures
        decimal(number_of(digits)) == digits,
        digits[0] != '0' ==> number_of(digits) >= 1,
    decreases digits.len(),
{
    let head = digits.drop_last();
    if digits.len() == 1 {
        assert(number_of(head) == 0);
        assert(digit_value(digits[0]) is Some);
        assert(decimal(number_of(digits)) =~= digits);
    } else {
        assert(digit_value(digits.last()) is Some);
        assert(head[0] == digits[0]);
        assert forall|i: int| 0 <= i < head.len() implies digit_value(#[trigger] head[i])
            is Some by {
            assert(head[i] == digits[i]);
        }
        lemma_canonical_is_decimal(head);
        let n = number_of(digits);
        assert(n / 10 == number_of(head));
        assert(decimal(n) =~= digits);
    }
}

/// A canonical writing of a number that fits in a byte has three digits at
/// most.
proof fn lemma_canonical_is_short(digits: Seq<char>)
    requires
        is_canonical(digits),
        number_of(digits) <= 255,
    ensures
        digits.len() <= 3,
{
    if digits.len() > 3 {
        let a = digits.subrange(0, 1);
        let b = digits.subrange(0, 2);
        let c = digits.subrange(0, 3);
        assert(digit_value(a[0]) is Some);
        assert(a.drop_last() =~= Seq::<char>::empty());
        assert(number_of(a.drop_last()) == 0);
        assert(number_of(a) >= 1);
        assert(b.drop_last() =~= a);
        assert(number_of(b) >= 10);
        assert(c.drop_last() =~= b);
        assert(number_of(c) >= 100);
        lemma_number_grows(digits, 3);
    }
}

/// More digits write no smaller a number: the number that a writing's first
/// `k` characters write, times ten, is at most what the first `k + 1` write,
/// and so on up to the whole.
proof fn lemma_number_grows(digits: Seq<char>, k: int)
    requires
        0 <= k < digits.len(),
    ensures
        number_of(digits) >= 10 * number_of(digits.subrange(0, k)),
    decreases digits.len() - k,
{
    let next = digits.subrange(0, k + 1);
    assert(next.drop_last() =~= digits.subrange(0, k));
    if k + 1 < digits.len() {
        lemma_number_grows(digits, k + 1);
    } else {
        assert(next =~= digits);
    }
}

/// A name has one tag at most: two shifts whose tags a name starts with are
/// the same shift.
pub proof fn lemma_tag_is_unique(name: Seq<char>, first: u8, second: u8)
    requires
        has_tag(name, first),
        has_tag(name, second),
    ensures
        first == second,
{
    let a = decimal(first as nat);
    let b = decimal(second as nat);
    let tag_a = a + tag_marker();
    let tag_b = b + tag_marker();
    lemma_decimal_is_canonical(first as nat);
    lemma_decimal_is_canonical(second as nat);
    assert(tag_a =~= name.subrange(0, tag_a.len() as int));
    assert(tag_b =~= name.subrange(0, tag_b.len() as int));
    if a.len() < b.len() {
        assert(name[a.len() as int] == tag_a[a.len() as int]);
        assert(name[a.len() as int] == tag_b[a.len() as int]);
        assert(digit_value(b[a.len() as int]) is Some);
    } else if b.len() < a.len() {
        assert(name[b.len() as int] == tag_b[b.len() as int]);
        assert(name[b.len() as int] == tag_a[b.len() as int]);
        assert(digit_value(a[b.len() as int]) is Some);
    } else {
        assert forall|i: int| 0 <= i < a.len() implies a[i] == b[i] by {
            assert(name[i] == tag_a[i]);
            assert(name[i] == tag_b[i]);
        }
        assert(a =~= b);
    }
}

/// Reading the tag recovers the shift: a tagged name has the tag of the shift
/// that it was tagged with, and of no other.
pub proof fn lemma_tag_is_recovered(name: Seq<char>, shift: u8, other: u8)
    ensures
        has_tag(tagged(name, shift), shift),
        has_tag(tagged(name, shift), other) ==> other == shift,
{
    let tag = decimal(shift as nat) + tag_marker();
    assert(tagged(name, shift).subrange(0, tag.len() as int) =~= tag);
    if has_tag(tagged(name, shift), other) {
        lemma_tag_is_unique(tagged(name, shift), shift, other);
    }
}

/// No digit is a dot, so the decimal writing of a number holds none.
pub proof fn lemma_decimal_has_no_dot(n: nat)
    ensures
        !decimal(n).contains('.'),
{
    lemma_decimal_is_canonical(n);
    assert forall|i: int| 0 <= i < decimal(n).len() implies decimal(n)[i] != '.' by {
        assert(digit_value(decimal(n)[i]) is Some);
    }
}

/// Stripping cuts at the first dot: behind a prefix without dots and a dot,
/// what follows is what is left.
pub proof fn lemma_strip_cuts_at_first_dot(prefix: Seq<char>, rest: Seq<char>)
    requires
        !prefix.contains('.'),
    ensures
        stripped(prefix + seq!['.'] + rest) == rest,
    decreases prefix.len(),
{
    let whole = prefix + seq!['.'] + rest;
    let tail = whole.subrange(1, whole.len() as int);
    if prefix.len() == 0 {
        assert(tail =~= rest);
    } else {
        let shorter = prefix.subrange(1, prefix.len() as int);
        assert(prefix.contains(prefix[0]));
        assert forall|i: int| 0 <= i < shorter.len() implies shorter[i] != '.' by {
            assert(prefix.contains(prefix[i + 1]));
        }
        assert(tail =~= shorter + seq!['.'] + rest);
        lemma_strip_cuts_at_first_dot(shorter, rest);
    }
}

/// A name without a dot has no tag, and stripping leaves nothing of it.
pub proof fn lemma_strip_without_dot(name: Seq<char>)
    requires
        !name.contains('.'),
    ensures
        stripped(name) == Seq::<char>::empty(),
    decreases name.len(),
{
    if name.len() > 0 {
        let tail = name.subrange(1, name.len() as int);
        assert(name.contains(name[0]));
        assert forall|i: int| 0 <= i < tail.len() implies tail[i] != '.' by {
            assert(name.contains(name[i + 1]));
        }
        lemma_strip_without_dot(tail);
    }
}

/// Removing the tag undoes tagging: for every name and every shift, stripping
/// the tagged name gives the name back.
pub proof fn lemma_strip_undoes_tag(name: Seq<char>, shift: u8)
    ensures
        stripped(tagged(name, shift)) == name,
{
    let prefix = decimal(shift as nat).push('c');
    lemma_decimal_has_no_dot(shift as nat);
    assert forall|i: int| 0 <= i < prefix.len() implies prefix[i] != '.' by {
        if i < decimal(shift as nat).len() {
            assert(decimal(shift as nat).contains(decimal(shift as nat)[i]));
        }
    }
    assert(tagged(name, shift) =~= prefix + seq!['.'] + name);
    lemma_strip_cuts_at_first_dot(prefix, name);
}

} // verus!
