use vstd::prelude::*;
use vstd::string::*;

verus! {

/// Name of the collection, and the stem of every ticket's name.
pub const NAME: &'static str = "Token Lottery Ticket";

/// Address given for the metadata of the collection and of every ticket.
pub const URI: &'static str = "Token Lottery";

/// Symbol of the collection and of every ticket.
pub const SYMBOL: &'static str = "TICKET";

/// The character for one decimal digit.
pub open spec fn digit(d: nat) -> char
    recommends
        d < 10,
{
    if d == 0 {
        '0'
    } else if d == 1 {
        '1'
    } else if d == 2 {
        '2'
    } else if d == 3 {
        '3'
    } else if d == 4 {
        '4'
    } else if d == 5 {
        '5'
    } else if d == 6 {
        '6'
    } else if d == 7 {
        '7'
    } else if d == 8 {
        '8'
    } else {
        '9'
    }
}

/// A number in decimal, without sign, padding or leading zeros.
pub open spec fn decimal(n: nat) -> Seq<char>
    decreases n,
{
    if n < 10 {
        seq![digit(n)]
    } else {
        decimal(n / 10).push(digit(n % 10))
    }
}

/// The name of the ticket with the given sequence number: the stem, then
/// the number in decimal.
pub open spec fn ticket_name(sequence_number: nat) -> Seq<char> {
    NAME@ + decimal(sequence_number)
}

/// A name without the NUL characters with which a registry pads it.
pub open spec fn strip_padding(name: Seq<char>) -> Seq<char> {
    name.filter(|c: char| c != '\0')
}

fn digit_text(d: u64) -> (text: &'static str)
    requires
        d < 10,
    ensures
        text@ == seq![digit(d as nat)],
{
    proof {
        reveal_strlit("0");
        reveal_strlit("1");
        reveal_strlit("2");
        reveal_strlit("3");
        reveal_strlit("4");
        reveal_strlit("5");
        reveal_strlit("6");
        reveal_strlit("7");
        reveal_strlit("8");
        reveal_strlit("9");
    }
    let text = if d == 0 {
        "0"
    } else if d == 1 {
        "1"
    } else if d == 2 {
        "2"
    } else if d == 3 {
        "3"
    } else if d == 4 {
        "4"
    } else if d == 5 {
        "5"
    } else if d == 6 {
        "6"
    } else if d == 7 {
        "7"
    } else if d == 8 {
        "8"
    } else {
        "9"
    };
    assert(text@ =~= seq![digit(d as nat)]);
    text
}

fn append_decimal(text: &mut String, n: u64)
    ensures
        final(text)@ == old(text)@ + decimal(n as nat),
    decreases n,
{
    if n >= 10 {
        append_decimal(text, n / 10);
    }
    text.append(digit_text(n % 10));
    assert(text@ =~= old(text)@ + decimal(n as nat));
}

/// Derives the name under which the ticket with this sequence number is
/// registered.
pub fn ticket_name_of(sequence_number: u64) -> (name: String)
    ensures
        name@ == ticket_name(sequence_number as nat),
{
    let mut name = String::from_str(NAME);
    append_decimal(&mut name, sequence_number);
    name
}

/// Stripping a name up to and with its `i`-th character: the character is
/// kept unless it is padding.
proof fn lemma_strip_step(name: Seq<char>, i: int)
    requires
        0 <= i < name.len(),
    ensures
        strip_padding(name.take(i + 1)) == if name[i] != '\0' {
            strip_padding(name.take(i)).push(name[i])
        } else {
            strip_padding(name.take(i))
        },
{
    reveal(Seq::filter);
    assert(name.take(i + 1).drop_last() =~= name.take(i));
}

/// Whether `name`, once its padding is stripped, is the name of the ticket
/// with this sequence number.
pub fn is_ticket_name(name: &str, sequence_number: u64) -> (same: bool)
    ensures
        same == (strip_padding(name@) == ticket_name(sequence_number as nat)),
{
    let expected = ticket_name_of(sequence_number);
    let expected_len = expected.as_str().unicode_len();
    let mut matched: usize = 0;
    proof {
        reveal(Seq::filter);
        assert(name@.take(0) =~= Seq::<char>::empty());
    }
    for c in it: name.chars()
        invariant
            it.seq() == name@,
            expected@ == ticket_name(sequence_number as nat),
            expected_len == expected@.len(),
            matched <= expected_len,
            strip_padding(name@.take(it.index() as int)) == expected@.take(matched as int),
    {
        proof {
            lemma_strip_step(name@, it.index() as int);
        }
        if c != '\0' {
            if matched >= expected_len || expected.as_str().get_char(matched) != c {
                proof {
                    let i = it.index() as int;
                    let head = name@.take(i + 1);
                    let tail = name@.skip(i + 1);
                    assert(name@ =~= head + tail);
                    Seq::filter_distributes_over_add(head, tail, |c: char| c != '\0');
                    assert(strip_padding(name@)[matched as int] == c);
                }
                return false;
            }
            assert(expected@.take(matched as int).push(c) =~= expected@.take(matched + 1));
            matched += 1;
        }
    }
    proof {
        assert(name@.take(name@.len() as int) =~= name@);
        assert(expected@.take(expected@.len() as int) =~= expected@);
    }
    matched == expected_len
}

} // verus!
