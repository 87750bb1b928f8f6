//! Text building blocks shared by the statement generators: decimal
//! numerals, positional placeholders and comma-separated lists.

use vstd::prelude::*;
use vstd::string::StringExecFns;

verus! {

/// The character that writes the decimal digit `d`.
pub open spec fn digit_char(d: nat) -> char {
    if d == 0 {
        '0'
    } else if d == 1 {
        '1'
    } else if d == 2 {
        '2'
    } else if d == 3 {
        '3'
    } else if d == 4 {
        '4'
    } else if d == 5 {
        '5'
    } else if d == 6 {
        '6'
    } else if d == 7 {
        '7'
    } else if d == 8 {
        '8'
    } else {
        '9'
    }
}

/// The decimal numeral of `n`, most significant digit first, without
/// leading zeros.
pub open spec fn decimal_text(n: nat) -> Seq<char>
    decreases n,
{
    if n < 10 {
        seq![digit_char(n)]
    } else {
        decimal_text(n / 10).push(digit_char(n % 10))
    }
}

/// The positional placeholder that refers to bound parameter number `n`
/// (1-based): a dollar sign followed by the numeral of `n`.
pub open spec fn placeholder_text(n: nat) -> Seq<char> {
    seq!['$'] + decimal_text(n)
}

fn digit_str(d: usize) -> (s: &'static str)
    requires
        d < 10,
    ensures
        s@ == seq![digit_char(d as nat)],
{
    proof {
        reveal_strlit("0");
        reveal_strlit("1");
        reveal_strlit("2");
        reveal_strlit("3");
        reveal_strlit("4");
        reveal_strlit("5");
        reveal_strlit("6");
        reveal_strlit("7");
        reveal_strlit("8");
        reveal_strlit("9");
    }
    let s = if d == 0 {
        "0"
    } else if d == 1 {
        "1"
    } else if d == 2 {
        "2"
    } else if d == 3 {
        "3"
    } else if d == 4 {
        "4"
    } else if d == 5 {
        "5"
    } else if d == 6 {
        "6"
    } else if d == 7 {
        "7"
    } else if d == 8 {
        "8"
    } else {
        "9"
    };
    s
}

/// Writes `n` as a decimal numeral.
pub fn decimal_string(n: usize) -> (s: String)
    ensures
        s@ == decimal_text(n as nat),
    decreases n,
{
    if n < 10 {
        String::from_str(digit_str(n))
    } else {
        let mut s = decimal_string(n / 10);
        s.append(digit_str(n % 10));
        s
    }
}

/// Writes the placeholder of bound parameter number `n`.
pub fn placeholder_string(n: usize) -> (s: String)
    ensures
        s@ == placeholder_text(n as nat),
{
    proof {
        reveal_strlit("$");
    }
    let mut s = String::from_str("$");
    let digits = decimal_string(n);
    s.append(digits.as_str());
    s
}

/// The texts that a list of strings holds.
pub open spec fn names_view(names: Seq<String>) -> Seq<Seq<char>> {
    names.map_values(|name: String| name@)
}

/// The items written one after another with `, ` between neighbours.
pub open spec fn comma_list(items: Seq<Seq<char>>) -> Seq<char>
    decreases items.len(),
{
    if items.len() == 0 {
        Seq::empty()
    } else if items.len() == 1 {
        items[0]
    } else {
        comma_list(items.drop_last()) + ", "@ + items.last()
    }
}

/// The placeholders numbered `first`, `first + 1`, ..., `count` of them.
pub open spec fn placeholder_names(first: nat, count: nat) -> Seq<Seq<char>> {
    Seq::new(count, |i: int| placeholder_text((first + i) as nat))
}

/// For each column the assignment `<column> = <placeholder>`, the
/// placeholders numbered from `first` on.
pub open spec fn assignment_names(columns: Seq<Seq<char>>, first: nat) -> Seq<Seq<char>> {
    Seq::new(columns.len(), |i: int| columns[i] + " = "@ + placeholder_text((first + i) as nat))
}

/// Writes the strings one after another with `, ` between neighbours.
pub fn join_with_commas(items: &Vec<String>) -> (joined: String)
    ensures
        joined@ == comma_list(names_view(items@)),
{
    let ghost names = names_view(items@);
    let mut joined = String::new();
    let mut i: usize = 0;
    while i < items.len()
        invariant
            i <= items.len(),
            names == names_view(items@),
            joined@ == comma_list(names.take(i as int)),
        decreases items.len() - i,
    {
        proof {
            assert(names.take(i as int + 1).drop_last() =~= names.take(i as int));
        }
        if i > 0 {
            joined.append(", ");
        }
        joined.append(items[i].as_str());
        i = i + 1;
    }
    proof {
        assert(names.take(items.len() as int) =~= names);
    }
    joined
}

/// Writes the placeholders numbered `first`, `first + 1`, ..., `count` of
/// them.
pub fn placeholder_strings(first: usize, count: usize) -> (names: Vec<String>)
    requires
        first + count <= usize::MAX,
    ensures
        names_view(names@) == placeholder_names(first as nat, count as nat),
{
    let mut names: Vec<String> = Vec::new();
    let mut i: usize = 0;
    while i < count
        invariant
            i <= count,
            first + count <= usize::MAX,
            names@.len() == i,
            forall|k: int|
                0 <= k < i ==> (#[trigger] names@[k])@ == placeholder_text((first + k) as nat),
        decreases count - i,
    {
        names.push(placeholder_string(first + i));
        i = i + 1;
    }
    names
}

/// Writes for each column the assignment `<column> = <placeholder>`, the
/// placeholders numbered from `first` on.
pub fn assignment_strings(columns: &Vec<String>, first: usize) -> (names: Vec<String>)
    requires
        first + columns@.len() <= usize::MAX,
    ensures
        names_view(names@) == assignment_names(names_view(columns@), first as nat),
{
    let mut names: Vec<String> = Vec::new();
    let mut i: usize = 0;
    while i < columns.len()
        invariant
            i <= columns.len(),
            first + columns@.len() <= usize::MAX,
            names@.len() == i,
            forall|k: int|
                0 <= k < i ==> (#[trigger] names@[k])@ == columns@[k]@ + " = "@ + placeholder_text(
                    (first + k) as nat,
                ),
        decreases columns.len() - i,
    {
        let mut assignment = String::from_str(columns[i].as_str());
        assignment.append(" = ");
        let placeholder = placeholder_string(first + i);
        assignment.append(placeholder.as_str());
        names.push(assignment);
        i = i + 1;
    }
    names
}

/// Whether `name` is one of `names`.
pub fn contains_name(names: &Vec<String>, name: &String) -> (found: bool)
    ensures
        found == names_view(names@).contains(name@),
{
    let mut i: usize = 0;
    while i < names.len()
        invariant
            i <= names.len(),
            forall|k: int| 0 <= k < i ==> names_view(names@)[k] != name@,
        decreases names.len() - i,
    {
        if names[i] == *name {
            assert(names_view(names@)[i as int] == name@);
            return true;
        }
        i = i + 1;
    }
    false
}

/// A copy of the list of names.
pub fn copy_names(names: &Vec<String>) -> (copy: Vec<String>)
    ensures
        names_view(copy@) == names_view(names@),
{
    let mut copy: Vec<String> = Vec::new();
    let mut i: usize = 0;
    while i < names.len()
        invariant
            i <= names.len(),
            copy@.len() == i,
            forall|k: int| 0 <= k < i ==> (#[trigger] copy@[k])@ == names@[k]@,
        decreases names.len() - i,
    {
        copy.push(names[i].clone());
        i = i + 1;
    }
    copy
}

} // verus!
