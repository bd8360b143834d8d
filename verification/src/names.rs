use vstd::prelude::*;
use vstd::string::*;

verus! {

/// Whether the path separator `::` starts at position `i` of `name`.
pub open spec fn separator_at(name: Seq<char>, i: int) -> bool {
    0 <= i && i + 1 < name.len() && name[i] == ':' && name[i + 1] == ':'
}

/// Where the last segment of a path begins, looking only at separators
/// that start before `end`: after the last of them, or at the beginning.
pub open spec fn short_start(name: Seq<char>, end: int) -> int
    decreases end,
{
    if end <= 0 {
        0
    } else if separator_at(name, end - 1) {
        end + 1
    } else {
        short_start(name, end - 1)
    }
}

/// The last segment of a path: what follows its last `::`, or all of it.
pub open spec fn shortened(name: Seq<char>) -> Seq<char> {
    name.subrange(short_start(name, name.len() - 1), name.len() as int)
}

/// The first position of `c` in `name` from `from` on, or the length of
/// `name` where there is none.
pub open spec fn first_position(name: Seq<char>, c: char, from: int) -> int
    decreases name.len() - from,
{
    if from >= name.len() {
        name.len() as int
    } else if 0 <= from && name[from] == c {
        from
    } else {
        first_position(name, c, from + 1)
    }
}

/// The last position of `c` in `name` before `end`, or -1 where there is
/// none.
pub open spec fn last_position(name: Seq<char>, c: char, end: int) -> int
    decreases end,
{
    if end <= 0 {
        -1
    } else if end <= name.len() && name[end - 1] == c {
        end - 1
    } else {
        last_position(name, c, end - 1)
    }
}

/// The short form of the name of a type with a type parameter: the last
/// path segment of what stands before the first `<`, then, in angle
/// brackets, the last path segment of what stands between that `<` and the
/// last `>`. A name without such a pair has no short form.
pub open spec fn short_type_name_of(full_name: Seq<char>) -> Option<Seq<char>> {
    let open = first_position(full_name, '<', 0);
    let close = last_position(full_name, '>', full_name.len() as int);
    if open < full_name.len() && open < close {
        Some(
            shortened(full_name.subrange(0, open)) + seq!['<'] + shortened(
                full_name.subrange(open + 1, close),
            ) + seq!['>'],
        )
    } else {
        None
    }
}

/// The last segment of a path: what follows its last `::`, or all of it.
pub fn shorten_type_name<'a>(name: &'a str) -> (short: &'a str)
    ensures
        short@ == shortened(name@),
{
    let len: usize = name.unicode_len();
    let mut start: usize = 0;
    let mut end: usize = if len == 0 {
        0
    } else {
        len - 1
    };
    let mut searching = true;
    while searching && end > 0
        invariant
            end < len || len == 0 && end == 0,
            len == name@.len(),
            start <= len,
            searching ==> start == 0,
            short_start(name@, len - 1) == if searching {
                short_start(name@, end as int)
            } else {
                start as int
            },
        decreases end + if searching { 1nat } else { 0nat },
    {
        if name.get_char(end - 1) == ':' && name.get_char(end) == ':' {
            start = end + 1;
            searching = false;
        } else {
            end = end - 1;
        }
    }
    name.substring_char(start, len)
}

/// The short form of the name of a type with a type parameter, or `None`
/// for a name without a `<` that is followed by a `>`.
pub fn short_type_name(full_name: &str) -> (short: Option<String>)
    ensures
        match short {
            Some(text) => short_type_name_of(full_name@) == Some(text@),
            None => short_type_name_of(full_name@).is_none(),
        },
{
    let len: usize = full_name.unicode_len();
    let mut open: usize = 0;
    while open < len && full_name.get_char(open) != '<'
        invariant
            open <= len,
            len == full_name@.len(),
            first_position(full_name@, '<', 0) == first_position(full_name@, '<', open as int),
        decreases len - open,
    {
        open = open + 1;
    }
    let mut end: usize = len;
    while end > 0 && full_name.get_char(end - 1) != '>'
        invariant
            end <= len,
            len == full_name@.len(),
            last_position(full_name@, '>', len as int) == last_position(
                full_name@,
                '>',
                end as int,
            ),
        decreases end,
    {
        end = end - 1;
    }
    if open >= len || end == 0 || open >= end - 1 {
        return None;
    }
    let close: usize = end - 1;
    let raw_name = shorten_type_name(full_name.substring_char(0, open));
    let type_parameter = shorten_type_name(full_name.substring_char(open + 1, close));
    proof {
        reveal_strlit("<");
        reveal_strlit(">");
    }
    let text = raw_name.to_owned().concat("<").concat(type_parameter).concat(">");
    assert(text@ =~= shortened(full_name@.subrange(0, open as int)) + seq!['<'] + shortened(
        full_name@.subrange(open + 1, close as int),
    ) + seq!['>']);
    Some(text)
}

/// The character of a decimal digit.
pub open spec fn digit(d: nat) -> char {
    if d == 0 {
        '0'
    } else if d == 1 {
        '1'
    } else if d == 2 {
        '2'
    } else if d == 3 {
        '3'
    } else if d == 4 {
        '4'
    } else if d == 5 {
        '5'
    } else if d == 6 {
        '6'
    } else if d == 7 {
        '7'
    } else if d == 8 {
        '8'
    } else {
        '9'
    }
}

/// A number written in decimal digits, without leading zeros.
pub open spec fn decimal(n: nat) -> Seq<char>
    decreases n,
{
    if n < 10 {
        seq![digit(n)]
    } else {
        decimal(n / 10).push(digit(n % 10))
    }
}

/// What a handle is rendered as: the name of its type, a colon, its slot
/// in decimal digits, an arrow and the stored object.
pub open spec fn rendered(kind: Seq<char>, slot: u64, object: Seq<char>) -> Seq<char> {
    kind + seq![':', ' '] + decimal(slot as nat) + seq![' ', '=', '>', ' '] + object
}

/// One decimal digit as text.
fn digit_text(d: u64) -> (text: &'static str)
    requires
        d < 10,
    ensures
        text@ == seq![digit(d as nat)],
{
    proof {
        reveal_strlit("0");
        reveal_strlit("1");
        reveal_strlit("2");
        reveal_strlit("3");
        reveal_strlit("4");
        reveal_strlit("5");
        reveal_strlit("6");
        reveal_strlit("7");
        reveal_strlit("8");
        reveal_strlit("9");
    }
    let text = if d == 0 {
        "0"
    } else if d == 1 {
        "1"
    } else if d == 2 {
        "2"
    } else if d == 3 {
        "3"
    } else if d == 4 {
        "4"
    } else if d == 5 {
        "5"
    } else if d == 6 {
        "6"
    } else if d == 7 {
        "7"
    } else if d == 8 {
        "8"
    } else {
        "9"
    };
    assert(text@ =~= seq![digit(d as nat)]);
    text
}

/// A number written in decimal digits, without leading zeros.
pub fn decimal_text(n: u64) -> (text: String)
    ensures
        text@ == decimal(n as nat),
    decreases n,
{
    if n < 10 {
        digit_text(n).to_owned()
    } else {
        let text = decimal_text(n / 10).concat(digit_text(n % 10));
        assert(text@ =~= decimal((n / 10) as nat).push(digit((n % 10) as nat)));
        text
    }
}

/// Renders a handle from the name of its type, its slot and the text of the
/// stored object.
pub fn render(kind: &str, slot: u64, object: &str) -> (text: String)
    ensures
        text@ == rendered(kind@, slot, object@),
{
    proof {
        reveal_strlit(": ");
        reveal_strlit(" => ");
    }
    let digits = decimal_text(slot);
    let text = kind.to_owned().concat(": ").concat(digits.as_str()).concat(" => ").concat(
        object,
    );
    assert(": "@ =~= seq![':', ' ']);
    assert(" => "@ =~= seq![' ', '=', '>', ' ']);
    text
}

} // verus!
