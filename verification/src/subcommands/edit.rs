//! Which entry a command is about: the position that the user named, or
//! the latest entry where none was named.

use vstd::prelude::*;
use vstd::string::{StrSliceExecFns, StringExecFns};
use crate::message::{Message, MessageText};
use crate::text::{decimal, decimal_text, digit_char, digits_of};

verus! {

/// Why no entry could be picked.
#[derive(Clone, Copy, Debug, PartialEq, Eq, Structural)]
pub enum PostIdError {
    /// The journal holds no entry.
    NoPosts,
    /// What was given is not a whole number that fits the machine.
    NotANumber,
    /// The number given is not between one and the number of entries,
    /// which this holds.
    OutOfRange(isize),
}

impl PostIdError {
    /// What the user is told of this failure. Of something that is no
    /// number it says no more than that; why it is none is for whoever
    /// read it to add.
    pub open spec fn message_text(self) -> MessageText {
        match self {
            PostIdError::NoPosts => MessageText::simple("No posts to edit"@),
            PostIdError::NotANumber => MessageText::simple("Failed to parse post ID"@),
            PostIdError::OutOfRange(num_posts) => MessageText {
                summary: "Invalid Post ID"@,
                reasons: Seq::empty(),
                subtleties: seq!["Pick an ID between 1 and "@ + decimal_text(num_posts as int)],
            },
        }
    }

    /// Writes what the user is told of this failure.
    pub fn message(&self) -> (m: Message)
        ensures
            m@ == self.message_text(),
    {
        match self {
            PostIdError::NoPosts => Message::simple("No posts to edit"),
            PostIdError::NotANumber => Message::simple("Failed to parse post ID"),
            PostIdError::OutOfRange(num_posts) => {
                let hint = String::from_str("Pick an ID between 1 and ").concat(
                    decimal(*num_posts as i128).as_str(),
                );
                let mut m = Message::simple("Invalid Post ID");
                m.add_subtlety(hint);
                assert(m@.subtleties =~= seq![hint@]);
                m
            },
        }
    }
}

/// Whether `c` is one of the ten decimal digits.
pub open spec fn is_digit(c: char) -> bool {
    '0' <= c && c <= '9'
}

/// The number that a run of decimal digits stands for.
pub open spec fn digits_value(digits: Seq<char>) -> int
    decreases digits.len(),
{
    if digits.len() == 0 {
        0
    } else {
        digits_value(digits.drop_last()) * 10 + (digits.last() as int - '0' as int)
    }
}

/// Whether `text` begins with a sign.
pub open spec fn has_sign(text: Seq<char>) -> bool {
    text.len() > 0 && (text[0] == '-' || text[0] == '+')
}

/// What of `text` follows its sign, if it has one.
pub open spec fn literal_digits(text: Seq<char>) -> Seq<char> {
    if has_sign(text) {
        text.skip(1)
    } else {
        text
    }
}

/// Whether `digits` holds decimal digits only.
pub open spec fn all_digits(digits: Seq<char>) -> bool {
    forall|i: int| 0 <= i < digits.len() ==> is_digit(#[trigger] digits[i])
}

/// The number that `text` stands for: an optional sign, then one or more
/// decimal digits, and nothing else.
pub open spec fn integer_literal(text: Seq<char>) -> Option<int> {
    let digits = literal_digits(text);
    if digits.len() == 0 || !all_digits(digits) {
        None
    } else if has_sign(text) && text[0] == '-' {
        Some(-digits_value(digits))
    } else {
        Some(digits_value(digits))
    }
}

/// The `isize` that `text` stands for, if it stands for a number and the
/// number fits.
pub open spec fn parsed_isize(text: Seq<char>) -> Option<isize> {
    match integer_literal(text) {
        Some(v) => if isize::MIN <= v <= isize::MAX {
            Some(v as isize)
        } else {
            None
        },
        None => None,
    }
}

/// The digits written for a number stand for that number.
pub proof fn lemma_digits_stand_for_their_number(n: nat)
    ensures
        digits_of(n).len() > 0,
        forall|i: int| 0 <= i < digits_of(n).len() ==> is_digit(#[trigger] digits_of(n)[i]),
        digits_value(digits_of(n)) == n,
    decreases n,
{
    if n < 10 {
        let one = digits_of(n);
        assert(one.drop_last() =~= Seq::<char>::empty());
        assert(digits_value(one.drop_last()) == 0);
        assert(one.last() == digit_char(n as int));
    } else {
        lemma_digits_stand_for_their_number(n / 10);
        let all = digits_of(n);
        assert(all.drop_last() =~= digits_of(n / 10));
        assert(all.last() == digit_char((n % 10) as int));
    }
}

/// A number as the list of entries writes it is read back as the same
/// number: what the list shows can be given to pick an entry.
pub proof fn lemma_written_numbers_are_read_back(n: isize)
    ensures
        parsed_isize(decimal_text(n as int)) == Some(n),
{
    let text = decimal_text(n as int);
    if n >= 0 {
        lemma_digits_stand_for_their_number(n as nat);
        assert(is_digit(text[0]));
    } else {
        lemma_digits_stand_for_their_number((-n) as nat);
        assert(text[0] == '-');
        assert(text.skip(1) =~= digits_of((-n) as nat));
    }
}

/// A run of digits stands for no less than any of its beginnings, and for
/// nothing below zero.
proof fn lemma_digits_value_grows(digits: Seq<char>, k: int)
    requires
        0 <= k <= digits.len(),
        forall|i: int| 0 <= i < digits.len() ==> is_digit(#[trigger] digits[i]),
    ensures
        0 <= digits_value(digits.take(k)) <= digits_value(digits),
    decreases digits.len(),
{
    if k == digits.len() {
        assert(digits.take(k) =~= digits);
        if digits.len() > 0 {
            lemma_digits_value_grows(digits.drop_last(), k - 1);
        }
    } else {
        let front = digits.drop_last();
        assert(front.take(k) =~= digits.take(k));
        lemma_digits_value_grows(front, k);
        assert(is_digit(digits.last()));
    }
}

/// Reads `text` as an `isize`, as `str::parse` of the standard library
/// does: an optional `+` or `-`, then decimal digits only, at least one,
/// and a value within the range of `isize`; anything else is no number.
pub fn parse_isize(text: &str) -> (r: Option<isize>)
    ensures
        r == parsed_isize(text@),
{
    let n = text.unicode_len();
    if n == 0 {
        return None;
    }
    let first = text.get_char(0);
    let negative = first == '-';
    let signed = negative || first == '+';
    let start: usize = if signed {
        1
    } else {
        0
    };
    let ghost digits = literal_digits(text@);
    if start == n {
        return None;
    }
    let limit: i128 = if negative {
        isize::MAX as i128 + 1
    } else {
        isize::MAX as i128
    };
    let mut value: i128 = 0;
    let mut i: usize = start;
    while i < n
        invariant
            start <= i <= n,
            n == text@.len(),
            n > 0,
            signed == has_sign(text@),
            negative == (text@[0] == '-'),
            start == (if signed { 1int } else { 0int }),
            digits == literal_digits(text@),
            limit == (if negative { isize::MAX + 1 } else { isize::MAX as int }),
            forall|j: int| 0 <= j < i - start ==> is_digit(#[trigger] digits[j]),
            value == digits_value(digits.take(i - start)),
            0 <= value <= limit,
        decreases n - i,
    {
        let c = text.get_char(i);
        assert(c == digits[i - start]);
        let code = c as u32;
        if code < 48 || code > 57 {
            assert(!is_digit(digits[i - start]));
            return None;
        }
        let next: i128 = value * 10 + (code - 48) as i128;
        proof {
            assert(digits.take(i - start + 1).drop_last() =~= digits.take(i - start));
            assert(digits.take(i - start + 1).last() == c);
            assert(next == digits_value(digits.take(i - start + 1)));
        }
        if next > limit {
            proof {
                if all_digits(digits) {
                    lemma_digits_value_grows(digits, i - start + 1);
                }
            }
            return None;
        }
        value = next;
        i += 1;
    }
    proof {
        assert(digits.take(n - start) =~= digits);
    }
    if negative {
        Some((-value) as isize)
    } else {
        Some(value as isize)
    }
}

/// The position that a valid choice among `num_posts` entries leads to.
pub open spec fn resolved(post_id: Option<Seq<char>>, num_posts: isize) -> Result<
    isize,
    PostIdError,
> {
    if num_posts == 0 {
        Err(PostIdError::NoPosts)
    } else {
        match post_id {
            None => Ok((num_posts - 1) as isize),
            Some(text) => match parsed_isize(text) {
                None => Err(PostIdError::NotANumber),
                Some(n) => if 1 <= n <= num_posts {
                    Ok((n - 1) as isize)
                } else {
                    Err(PostIdError::OutOfRange(num_posts))
                },
            },
        }
    }
}

/// Picks the entry that a command is about, counting from zero. The user
/// counts from one: `post_id` names an entry between one and `num_posts`.
/// Where nothing is named the last position is meant. An empty journal
/// has no entry to pick, whatever is named.
pub fn resolve_post_id(post_id: Option<&str>, num_posts: isize) -> (r: Result<isize, PostIdError>)
    requires
        num_posts > isize::MIN,
    ensures
        r == resolved(
            match post_id {
                Some(text) => Some(text@),
                None => None,
            },
            num_posts,
        ),
{
    if num_posts == 0 {
        return Err(PostIdError::NoPosts);
    }
    match post_id {
        None => Ok(num_posts - 1),
        Some(text) => match parse_isize(text) {
            None => Err(PostIdError::NotANumber),
            Some(n) => {
                if 1 <= n && n <= num_posts {
                    Ok(n - 1)
                } else {
                    Err(PostIdError::OutOfRange(num_posts))
                }
            },
        },
    }
}

} // verus!
