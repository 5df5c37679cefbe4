//! Strings as sequences of characters: the few operations the router needs.

use vstd::prelude::*;

verus! {

/// The characters of each string of a list.
pub open spec fn views(list: Seq<String>) -> Seq<Seq<char>> {
    list.map_values(|s: String| s@)
}

/// The characters of a string that may be absent.
pub open spec fn opt_view(text: Option<String>) -> Option<Seq<char>> {
    match text {
        Some(s) => Some(s@),
        None => None,
    }
}

/// A result whose error is a message, taken by the characters of that message.
pub open spec fn text_result(result: Result<String, String>) -> Result<Seq<char>, Seq<char>> {
    match result {
        Ok(s) => Ok(s@),
        Err(e) => Err(e@),
    }
}

/// A string followed by another.
pub fn concat(first: &str, second: &str) -> (joined: String)
    ensures
        joined@ == first@ + second@,
{
    let mut joined = first.to_string();
    joined.append(second);
    joined
}

/// The parts in order, with the separator between each two of them.
pub open spec fn joined(parts: Seq<Seq<char>>, separator: Seq<char>) -> Seq<char>
    decreases parts.len(),
{
    if parts.len() == 0 {
        Seq::empty()
    } else if parts.len() == 1 {
        parts[0]
    } else {
        joined(parts.drop_last(), separator) + separator + parts.last()
    }
}

/// Joins the strings of a list with a separator.
pub fn join(parts: &Vec<String>, separator: &str) -> (text: String)
    ensures
        text@ == joined(views(parts@), separator@),
{
    let mut text = String::new();
    for i in 0..parts.len()
        invariant
            text@ == joined(views(parts@.take(i as int)), separator@),
    {
        if i > 0 {
            text.append(separator);
        }
        text.append(parts[i].as_str());
        proof {
            let upto = views(parts@.take(i + 1));
            assert(upto.drop_last() =~= views(parts@.take(i as int)));
            assert(upto.last() == parts[i as int]@);
        }
    }
    assert(parts@.take(parts.len() as int) =~= parts@);
    text
}

/// The decimal digit of a number below ten.
pub open spec fn digit(d: nat) -> char {
    seq!['0', '1', '2', '3', '4', '5', '6', '7', '8', '9'][d as int]
}

/// A number written in decimal, without leading zeros.
pub open spec fn decimal(n: nat) -> Seq<char>
    decreases n,
{
    if n < 10 {
        seq![digit(n)]
    } else {
        decimal(n / 10).push(digit(n % 10))
    }
}

fn digit_str(d: u64) -> (s: &'static str)
    requires
        d < 10,
    ensures
        s@ == seq![digit(d as nat)],
{
    proof {
        reveal_strlit("0");
        reveal_strlit("1");
        reveal_strlit("2");
        reveal_strlit("3");
        reveal_strlit("4");
        reveal_strlit("5");
        reveal_strlit("6");
        reveal_strlit("7");
        reveal_strlit("8");
        reveal_strlit("9");
    }
    let s = match d {
        0 => "0",
        1 => "1",
        2 => "2",
        3 => "3",
        4 => "4",
        5 => "5",
        6 => "6",
        7 => "7",
        8 => "8",
        _ => "9",
    };
    assert(s@ =~= seq![digit(d as nat)]);
    s
}

/// Writes a number in decimal.
pub fn decimal_string(n: u64) -> (s: String)
    ensures
        s@ == decimal(n as nat),
    decreases n,
{
    if n < 10 {
        digit_str(n).to_string()
    } else {
        let mut s = decimal_string(n / 10);
        s.append(digit_str(n % 10));
        assert(s@ =~= decimal(n as nat));
        s
    }
}

/// Whether a list holds a string with the same characters.
pub fn contains(list: &Vec<String>, text: &String) -> (found: bool)
    ensures
        found == views(list@).contains(text@),
{
    for i in 0..list.len()
        invariant
            forall|j: int| 0 <= j < i ==> (#[trigger] views(list@)[j]) != text@,
    {
        if list[i] == *text {
            assert(views(list@)[i as int] == text@);
            return true;
        }
    }
    false
}

/// A copy of a list of strings, character for character.
pub fn copy_strings(list: &Vec<String>) -> (copy: Vec<String>)
    ensures
        views(copy@) == views(list@),
{
    let mut copy: Vec<String> = Vec::new();
    for i in 0..list.len()
        invariant
            copy@ == list@.take(i as int),
    {
        copy.push(list[i].clone());
        assert(list@.take(i + 1) =~= list@.take(i as int).push(list[i as int]));
    }
    assert(list@.take(list.len() as int) =~= list@);
    copy
}

/// A copy of a list of numbers.
pub fn copy_ids(list: &Vec<u32>) -> (copy: Vec<u32>)
    ensures
        copy@ == list@,
{
    let mut copy: Vec<u32> = Vec::new();
    copy.extend_from_slice(list.as_slice());
    assert(copy@ =~= list@);
    copy
}

} // verus!
