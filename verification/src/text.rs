//! Small helpers on text.

use vstd::prelude::*;
use vstd::string::StringExecFns;

verus! {

/// Whether two texts hold the same characters.
pub fn same_text(left: &str, right: &str) -> (same: bool)
    ensures
        same == (left@ == right@),
{
    let left_owned = left.to_owned();
    let right_owned = right.to_owned();
    left_owned == right_owned
}

/// Whether `needle` occurs in `text`.
pub fn contains_char(text: &str, needle: char) -> (found: bool)
    ensures
        found == text@.contains(needle),
{
    broadcast use vstd::string::group_string_axioms;

    let mut found = false;
    for c in iter: text.chars()
        invariant
            iter.seq() == text@,
            found == text@.take(iter.index() as int).contains(needle),
    {
        proof {
            let seen = text@.take(iter.index() as int);
            let longer = text@.take(iter.index() + 1);
            assert(longer =~= seen.push(c));
            if seen.contains(needle) {
                let i = choose|i: int| 0 <= i < seen.len() && seen[i] == needle;
                assert(longer[i] == needle);
            }
            if c == needle {
                assert(longer[iter.index() as int] == needle);
            }
        }
        if c == needle {
            found = true;
        }
    }
    assert(text@.take(text@.len() as int) =~= text@);
    found
}

/// The character that writes a digit.
pub open spec fn digit_char(digit: nat) -> char {
    if digit == 0 {
        '0'
    } else if digit == 1 {
        '1'
    } else if digit == 2 {
        '2'
    } else if digit == 3 {
        '3'
    } else if digit == 4 {
        '4'
    } else if digit == 5 {
        '5'
    } else if digit == 6 {
        '6'
    } else if digit == 7 {
        '7'
    } else if digit == 8 {
        '8'
    } else {
        '9'
    }
}

/// A number in decimal digits, without leading zeros.
pub open spec fn decimal(number: nat) -> Seq<char>
    decreases number,
{
    if number < 10 {
        seq![digit_char(number)]
    } else {
        decimal(number / 10).push(digit_char(number % 10))
    }
}

/// A number in decimal digits, after a minus sign where it is negative.
pub open spec fn signed_decimal(number: int) -> Seq<char> {
    if number < 0 {
        seq!['-'] + decimal((-number) as nat)
    } else {
        decimal(number as nat)
    }
}

fn digit_text(digit: u128) -> (text: &'static str)
    requires
        digit < 10,
    ensures
        text@ == seq![digit_char(digit as nat)],
{
    proof {
        reveal_strlit("0");
        reveal_strlit("1");
        reveal_strlit("2");
        reveal_strlit("3");
        reveal_strlit("4");
        reveal_strlit("5");
        reveal_strlit("6");
        reveal_strlit("7");
        reveal_strlit("8");
        reveal_strlit("9");
    }
    let text = if digit == 0 {
        "0"
    } else if digit == 1 {
        "1"
    } else if digit == 2 {
        "2"
    } else if digit == 3 {
        "3"
    } else if digit == 4 {
        "4"
    } else if digit == 5 {
        "5"
    } else if digit == 6 {
        "6"
    } else if digit == 7 {
        "7"
    } else if digit == 8 {
        "8"
    } else {
        "9"
    };
    assert(text@ =~= seq![digit_char(digit as nat)]);
    text
}

/// Writes a number in decimal digits.
pub fn decimal_string(number: u128) -> (text: String)
    ensures
        text@ == decimal(number as nat),
    decreases number,
{
    if number < 10 {
        digit_text(number).to_owned()
    } else {
        let mut text = decimal_string(number / 10);
        text.append(digit_text(number % 10));
        assert(text@ =~= decimal((number / 10) as nat).push(digit_char((number % 10) as nat)));
        text
    }
}

/// Writes a number in decimal digits, after a minus sign where it is
/// negative.
pub fn signed_decimal_string(number: i64) -> (text: String)
    ensures
        text@ == signed_decimal(number as int),
{
    if number < 0 {
        proof {
            reveal_strlit("-");
        }
        let magnitude: u128 = (-(number as i128)) as u128;
        let mut text = "-".to_owned();
        text.append(decimal_string(magnitude).as_str());
        assert(text@ =~= seq!['-'] + decimal((-number) as nat));
        text
    } else {
        decimal_string(number as u128)
    }
}

/// The digit that a character writes; 0 for any other character.
pub open spec fn digit_value(c: char) -> nat {
    if c == '1' {
        1
    } else if c == '2' {
        2
    } else if c == '3' {
        3
    } else if c == '4' {
        4
    } else if c == '5' {
        5
    } else if c == '6' {
        6
    } else if c == '7' {
        7
    } else if c == '8' {
        8
    } else if c == '9' {
        9
    } else {
        0
    }
}

/// The number that decimal digits write.
pub open spec fn decimal_value(text: Seq<char>) -> nat
    decreases text.len(),
{
    if text.len() == 0 {
        0
    } else {
        decimal_value(text.drop_last()) * 10 + digit_value(text.last())
    }
}

/// Reading the decimal digits of a number gives the number back, so two
/// numbers with the same digits are the same number.
pub proof fn lemma_decimal_value(number: nat)
    ensures
        decimal_value(decimal(number)) == number,
    decreases number,
{
    if number < 10 {
        let text = seq![digit_char(number)];
        assert(text.drop_last() =~= Seq::<char>::empty());
        assert(text.last() == digit_char(number));
        assert(decimal_value(text.drop_last()) == 0);
    } else {
        lemma_decimal_value(number / 10);
        let text = decimal(number / 10).push(digit_char(number % 10));
        assert(text.drop_last() =~= decimal(number / 10));
        assert(text.last() == digit_char(number % 10));
    }
}

/// The texts one after the other, with the separator between each two.
pub open spec fn joined(items: Seq<String>, separator: Seq<char>) -> Seq<char>
    decreases items.len(),
{
    if items.len() == 0 {
        Seq::empty()
    } else if items.len() == 1 {
        items[0]@
    } else {
        joined(items.drop_last(), separator) + separator + items.last()@
    }
}

/// Joins the texts with the separator.
pub fn join(items: &Vec<String>, separator: &str) -> (text: String)
    ensures
        text@ == joined(items@, separator@),
{
    let mut text = String::new();
    let mut index: usize = 0;
    while index < items.len()
        invariant
            index <= items.len(),
            text@ == joined(items@.take(index as int), separator@),
        decreases items.len() - index,
    {
        let ghost before = items@.take(index as int);
        if index > 0 {
            text.append(separator);
        }
        text.append(items[index].as_str());
        proof {
            let longer = items@.take(index + 1);
            assert(longer.drop_last() =~= before);
            assert(longer.last() == items@[index as int]);
            if index == 0 {
                assert(text@ =~= items@[0]@);
            }
        }
        index = index + 1;
    }
    assert(items@.take(index as int) =~= items@);
    text
}

/// The position of the first `needle` at or after `from`; the length of the
/// text where there is none.
pub open spec fn position_from(text: Seq<char>, needle: char, from: int) -> int
    decreases text.len() - from,
{
    if from >= text.len() {
        text.len() as int
    } else if from >= 0 && text[from] == needle {
        from
    } else {
        position_from(text, needle, from + 1)
    }
}

/// The text up to its second colon, and all of it where it has fewer than
/// two: the first two of the parts that colons set apart.
pub open spec fn first_two_parts(text: Seq<char>) -> Seq<char> {
    let first = position_from(text, ':', 0);
    if first >= text.len() {
        text
    } else {
        text.take(position_from(text, ':', first + 1))
    }
}

/// `position_from` finds the needle, or the end, and nothing before it.
pub proof fn lemma_position_from(text: Seq<char>, needle: char, from: int)
    requires
        0 <= from <= text.len(),
    ensures
        from <= position_from(text, needle, from) <= text.len(),
        position_from(text, needle, from) < text.len() ==> text[position_from(text, needle, from)]
            == needle,
        forall|i: int| from <= i < position_from(text, needle, from) ==> text[i] != needle,
    decreases text.len() - from,
{
    if from < text.len() && text[from] != needle {
        lemma_position_from(text, needle, from + 1);
    }
}

/// Cuts a path of a replica down to its service and node.
pub fn service_and_node(path: &str) -> (text: String)
    ensures
        text@ == first_two_parts(path@),
{
    broadcast use vstd::string::group_string_axioms;

    let length = path.unicode_len();
    let mut colons: usize = 0;
    let mut cut: Option<usize> = None;
    let mut position: usize = 0;
    proof {
        lemma_position_from(path@, ':', 0);
    }
    for c in iter: path.chars()
        invariant
            iter.seq() == path@,
            length == path@.len(),
            position == iter.index(),
            colons <= 2,
            cut.is_some() == (colons == 2),
            colons == 0 ==> position_from(path@, ':', 0) >= position,
            colons == 1 ==> position_from(path@, ':', 0) < position && position_from(
                path@,
                ':',
                position_from(path@, ':', 0) + 1,
            ) >= position,
            cut matches Some(at) ==> position_from(path@, ':', 0) < path@.len() && at == position_from(
                path@,
                ':',
                position_from(path@, ':', 0) + 1,
            ) && at < path@.len(),
    {
        proof {
            let first = position_from(path@, ':', 0);
            lemma_position_from(path@, ':', 0);
            if first < path@.len() {
                lemma_position_from(path@, ':', first + 1);
            }
        }
        if c == ':' && colons < 2 {
            colons = colons + 1;
            if colons == 2 {
                cut = Some(position);
            }
        }
        position = position + 1;
    }
    proof {
        let first = position_from(path@, ':', 0);
        lemma_position_from(path@, ':', 0);
        if first < path@.len() {
            lemma_position_from(path@, ':', first + 1);
        }
    }
    match cut {
        Some(at) => {
            let part = path.substring_char(0, at);
            assert(part@ =~= path@.take(at as int));
            part.to_owned()
        },
        None => {
            assert(path@.take(path@.len() as int) =~= path@);
            path.to_owned()
        },
    }
}

/// The services and nodes of the first `upto` paths, each once, where it
/// came first.
pub open spec fn nodes_in_order(paths: Seq<String>, upto: int) -> Seq<Seq<char>>
    decreases upto,
{
    if upto <= 0 {
        Seq::empty()
    } else {
        let before = nodes_in_order(paths, upto - 1);
        if before.contains(first_two_parts(paths[upto - 1]@)) {
            before
        } else {
            before.push(first_two_parts(paths[upto - 1]@))
        }
    }
}

/// How many of the first `upto` paths lie under the service and node.
pub open spec fn replicas_under(paths: Seq<String>, node: Seq<char>, upto: int) -> nat
    decreases upto,
{
    if upto <= 0 {
        0
    } else if first_two_parts(paths[upto - 1]@) == node {
        replicas_under(paths, node, upto - 1) + 1
    } else {
        replicas_under(paths, node, upto - 1)
    }
}

/// A service and node that is not among `nodes_in_order` has no replica
/// among the paths, no service and node is listed twice, and no count
/// exceeds the number of paths.
proof fn lemma_nodes_in_order(paths: Seq<String>, upto: int)
    requires
        0 <= upto <= paths.len(),
    ensures
        nodes_in_order(paths, upto).no_duplicates(),
        forall|node: Seq<char>|
            !nodes_in_order(paths, upto).contains(node) ==> #[trigger] replicas_under(paths, node, upto)
                == 0,
        forall|node: Seq<char>| #[trigger] replicas_under(paths, node, upto) <= upto,
    decreases upto,
{
    if upto > 0 {
        lemma_nodes_in_order(paths, upto - 1);
        let before = nodes_in_order(paths, upto - 1);
        let last = first_two_parts(paths[upto - 1]@);
        let nodes = nodes_in_order(paths, upto);
        assert(nodes.contains(last)) by {
            if before.contains(last) {
                assert(nodes == before);
            } else {
                assert(nodes[before.len() as int] == last);
            }
        }
        assert forall|node: Seq<char>| !nodes.contains(node) implies #[trigger] replicas_under(
            paths,
            node,
            upto,
        ) == 0 by {
            if before.contains(node) {
                let i = choose|i: int| 0 <= i < before.len() && before[i] == node;
                assert(nodes[i] == node);
            }
            assert(!before.contains(node));
            assert(node != last);
            assert(replicas_under(paths, node, upto - 1) == 0);
        }
        assert forall|node: Seq<char>| #[trigger] replicas_under(paths, node, upto) <= upto by {
            assert(replicas_under(paths, node, upto - 1) <= upto - 1);
        }
    }
}

/// Counts the replicas under each service and node: one pair for each
/// service and node, in the order in which the paths first name them.
pub fn count_by_node(paths: &Vec<String>) -> (counts: Vec<(String, usize)>)
    ensures
        counts@.len() == nodes_in_order(paths@, paths@.len() as int).len(),
        forall|i: int|
            0 <= i < counts@.len() ==> (#[trigger] counts@[i]).0@ == nodes_in_order(
                paths@,
                paths@.len() as int,
            )[i] && counts@[i].1 == replicas_under(paths@, counts@[i].0@, paths@.len() as int),
{
    let mut counts: Vec<(String, usize)> = Vec::new();
    let mut index: usize = 0;
    while index < paths.len()
        invariant
            index <= paths.len(),
            counts@.len() == nodes_in_order(paths@, index as int).len(),
            forall|i: int|
                0 <= i < counts@.len() ==> (#[trigger] counts@[i]).0@ == nodes_in_order(
                    paths@,
                    index as int,
                )[i] && counts@[i].1 == replicas_under(paths@, counts@[i].0@, index as int),
        decreases paths.len() - index,
    {
        let node = service_and_node(paths[index].as_str());
        let ghost nodes = nodes_in_order(paths@, index as int);
        proof {
            lemma_nodes_in_order(paths@, index as int);
            lemma_nodes_in_order(paths@, index + 1);
        }
        let mut found: Option<usize> = None;
        let mut at: usize = 0;
        while at < counts.len()
            invariant
                at <= counts.len(),
                counts@.len() == nodes.len(),
                forall|i: int| 0 <= i < counts@.len() ==> (#[trigger] counts@[i]).0@ == nodes[i],
                match found {
                    Some(j) => j < counts@.len() && nodes[j as int] == node@,
                    None => forall|i: int| 0 <= i < at ==> nodes[i] != node@,
                },
            decreases counts.len() - at,
        {
            if found.is_none() && same_text(counts[at].0.as_str(), node.as_str()) {
                found = Some(at);
            }
            at = at + 1;
        }
        match found {
            Some(j) => {
                let ghost before = counts@;
                assert(nodes.contains(node@));
                let entry = &mut counts[j];
                entry.1 = entry.1 + 1;
                proof {
                    assert(nodes_in_order(paths@, index + 1) == nodes);
                    assert forall|i: int| 0 <= i < counts@.len() implies (#[trigger] counts@[i]).0@
                        == nodes[i] && counts@[i].1 == replicas_under(paths@, counts@[i].0@, index + 1) by {
                        assert(before[i].0@ == nodes[i]);
                        assert(before[i].1 == replicas_under(paths@, before[i].0@, index as int));
                        if i != j {
                            assert(nodes[i] != nodes[j as int]);
                        }
                    }
                }
            },
            None => {
                assert(!nodes.contains(node@));
                assert(replicas_under(paths@, node@, index as int) == 0);
                let ghost before = counts@;
                counts.push((node, 1));
                proof {
                    assert(nodes_in_order(paths@, index + 1) == nodes.push(node@));
                    assert forall|i: int| 0 <= i < counts@.len() implies (#[trigger] counts@[i]).0@
                        == nodes_in_order(paths@, index + 1)[i] && counts@[i].1 == replicas_under(
                        paths@,
                        counts@[i].0@,
                        index + 1,
                    ) by {
                        if i < before.len() {
                            assert(before[i].0@ == nodes[i]);
                            assert(nodes[i] != node@);
                        }
                    }
                }
            },
        }
        index = index + 1;
    }
    counts
}

/// Whether the character is a decimal digit.
pub open spec fn is_digit(c: char) -> bool {
    c == '0' || digit_value(c) > 0
}

/// Whether the text holds nothing but decimal digits.
pub open spec fn all_digits(text: Seq<char>) -> bool {
    forall|i: int| 0 <= i < text.len() ==> is_digit(#[trigger] text[i])
}

/// The text without the plus sign that it may start with.
pub open spec fn without_sign(text: Seq<char>) -> Seq<char> {
    if text.len() > 0 && text[0] == '+' {
        text.drop_first()
    } else {
        text
    }
}

/// The number that a text writes in decimal digits, after a plus sign or
/// without one: nothing where the text has no digit, holds anything but
/// digits after the sign, or writes a number that 64 bits do not hold.
pub open spec fn unsigned_number(text: Seq<char>) -> Option<u64> {
    let digits = without_sign(text);
    if digits.len() > 0 && all_digits(digits) && decimal_value(digits) <= u64::MAX {
        Some(decimal_value(digits) as u64)
    } else {
        None
    }
}

/// More digits never write a smaller number.
proof fn lemma_decimal_value_grows(text: Seq<char>, upto: int)
    requires
        0 <= upto <= text.len(),
    ensures
        decimal_value(text.take(upto)) <= decimal_value(text),
    decreases text.len() - upto,
{
    if upto < text.len() {
        lemma_decimal_value_grows(text, upto + 1);
        assert(text.take(upto + 1).drop_last() =~= text.take(upto));
    } else {
        assert(text.take(upto) =~= text);
    }
}

fn digit_of(c: char) -> (digit: Option<u64>)
    ensures
        digit.is_some() == is_digit(c),
        digit matches Some(d) ==> d == digit_value(c) && d < 10,
{
    if c == '0' {
        Some(0)
    } else if c == '1' {
        Some(1)
    } else if c == '2' {
        Some(2)
    } else if c == '3' {
        Some(3)
    } else if c == '4' {
        Some(4)
    } else if c == '5' {
        Some(5)
    } else if c == '6' {
        Some(6)
    } else if c == '7' {
        Some(7)
    } else if c == '8' {
        Some(8)
    } else if c == '9' {
        Some(9)
    } else {
        None
    }
}

/// Reads a number from its decimal digits.
pub fn parse_unsigned(text: &str) -> (number: Option<u64>)
    ensures
        number == unsigned_number(text@),
{
    broadcast use vstd::string::group_string_axioms;

    let ghost digits = without_sign(text@);
    let ghost offset: int = text@.len() - digits.len();
    let mut first = true;
    let mut seen_digit = false;
    let mut valid = true;
    let mut value: u64 = 0;
    for c in iter: text.chars()
        invariant
            iter.seq() == text@,
            digits == without_sign(text@),
            offset == text@.len() - digits.len(),
            0 <= offset <= 1,
            first == (iter.index() == 0),
            !first ==> iter.index() >= offset,
            seen_digit == (iter.index() > offset),
            valid && !first ==> all_digits(digits.take(iter.index() - offset)),
            valid && !first ==> value == decimal_value(digits.take(iter.index() - offset)),
            valid && first ==> value == 0,
            !valid ==> unsigned_number(text@).is_none(),
    {
        let ghost position = iter.index() - offset;
        if first && c == '+' {
            first = false;
            assert(digits.take(0) =~= Seq::<char>::empty());
        } else {
            proof {
                assert(digits[position] == c);
                let longer = digits.take(position + 1);
                assert(longer.drop_last() =~= digits.take(position));
                assert(longer.last() == c);
                assert(decimal_value(longer) == decimal_value(digits.take(position)) * 10 + digit_value(c));
                if position == 0 {
                    assert(digits.take(0) =~= Seq::<char>::empty());
                }
                assert(valid ==> value == decimal_value(digits.take(position)) && all_digits(
                    digits.take(position),
                ));
                assert(is_digit(c) && all_digits(digits.take(position)) ==> all_digits(longer)) by {
                    if is_digit(c) && all_digits(digits.take(position)) {
                        assert forall|i: int| 0 <= i < longer.len() implies is_digit(#[trigger] longer[i]) by {
                            if i < position {
                                assert(digits.take(position)[i] == longer[i]);
                            }
                        }
                    }
                }
                lemma_decimal_value_grows(digits, position + 1);
            }
            first = false;
            seen_digit = true;
            if valid {
                match digit_of(c) {
                    Some(digit) => {
                        if value > (u64::MAX - digit) / 10 {
                            assert(decimal_value(digits.take(position + 1)) > u64::MAX);
                            valid = false;
                        } else {
                            value = value * 10 + digit;
                        }
                    },
                    None => {
                        assert(!all_digits(digits));
                        valid = false;
                    },
                }
            }
        }
    }
    proof {
        assert(digits.take(digits.len() as int) =~= digits);
    }
    if valid && seen_digit {
        Some(value)
    } else {
        None
    }
}

} // verus!
