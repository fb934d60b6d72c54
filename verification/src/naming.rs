//! The naming convention for exported symbols.
//!
//! A mangled name is `_R`, the namespaces, `Z`, the class, `Z`, the function,
//! `Z`, the argument types, `Z`, the return type. Each name is written with its
//! length in bytes in front, in decimal; a missing class and an empty list are
//! written as `0`.

use vstd::prelude::*;
use vstd::string::StringExecFns;
use vstd::utf8::encode_utf8;

verus! {

/// The decimal digit for `d`, which is less than ten.
pub open spec fn digit(d: nat) -> char {
    if d == 0 {
        '0'
    } else if d == 1 {
        '1'
    } else if d == 2 {
        '2'
    } else if d == 3 {
        '3'
    } else if d == 4 {
        '4'
    } else if d == 5 {
        '5'
    } else if d == 6 {
        '6'
    } else if d == 7 {
        '7'
    } else if d == 8 {
        '8'
    } else {
        '9'
    }
}

/// `n` in decimal, without leading zeros.
pub open spec fn decimal(n: nat) -> Seq<char>
    decreases n,
{
    if n < 10 {
        seq![digit(n)]
    } else {
        decimal(n / 10) + seq![digit(n % 10)]
    }
}

/// A name with its length in bytes in front.
pub open spec fn counted(name: Seq<char>) -> Seq<char> {
    decimal(encode_utf8(name).len()) + name
}

/// Each of `names` with its length in front, one after another.
pub open spec fn counted_all(names: Seq<Seq<char>>) -> Seq<char>
    decreases names.len(),
{
    if names.len() == 0 {
        Seq::empty()
    } else {
        counted_all(names.drop_last()) + counted(names.last())
    }
}

/// A list of names: `0` where it is empty.
pub open spec fn counted_list(names: Seq<Seq<char>>) -> Seq<char> {
    if names.len() == 0 {
        seq!['0']
    } else {
        counted_all(names)
    }
}

/// A class name, or `0` where there is none.
pub open spec fn counted_class(class: Option<Seq<char>>) -> Seq<char> {
    match class {
        Some(name) => counted(name),
        None => seq!['0'],
    }
}

/// The mangled name of a function.
pub open spec fn mangled(
    namespaces: Seq<Seq<char>>,
    class: Option<Seq<char>>,
    func: Seq<char>,
    args: Seq<Seq<char>>,
    ret: Seq<char>,
) -> Seq<char> {
    seq!['_', 'R'] + counted_list(namespaces) + seq!['Z'] + counted_class(class) + seq!['Z']
        + counted(func) + seq!['Z'] + counted_list(args) + seq!['Z'] + counted(ret)
}

/// The views of the strings of `names`.
pub open spec fn views(names: Seq<&str>) -> Seq<Seq<char>> {
    names.map_values(|s: &str| s@)
}

/// The view of `class`, if there is one.
pub open spec fn class_view(class: Option<&str>) -> Option<Seq<char>> {
    match class {
        Some(name) => Some(name@),
        None => None,
    }
}

/// The digit for `d` as a string.
fn digit_str(d: usize) -> (s: &'static str)
    requires
        d < 10,
    ensures
        s@ == seq![digit(d as nat)],
{
    proof {
        reveal_strlit("0");
        reveal_strlit("1");
        reveal_strlit("2");
        reveal_strlit("3");
        reveal_strlit("4");
        reveal_strlit("5");
        reveal_strlit("6");
        reveal_strlit("7");
        reveal_strlit("8");
        reveal_strlit("9");
    }
    let s = if d == 0 {
        "0"
    } else if d == 1 {
        "1"
    } else if d == 2 {
        "2"
    } else if d == 3 {
        "3"
    } else if d == 4 {
        "4"
    } else if d == 5 {
        "5"
    } else if d == 6 {
        "6"
    } else if d == 7 {
        "7"
    } else if d == 8 {
        "8"
    } else {
        "9"
    };
    assert(s@ =~= seq![digit(d as nat)]);
    s
}

/// Writes `n` in decimal behind `out`.
pub fn push_decimal(out: &mut String, n: usize)
    ensures
        final(out)@ == old(out)@ + decimal(n as nat),
    decreases n,
{
    if n >= 10 {
        push_decimal(out, n / 10);
    }
    out.append(digit_str(n % 10));
    assert(out@ =~= old(out)@ + decimal(n as nat));
}

/// Writes `name` behind `out`, with its length in bytes in front.
fn push_counted(out: &mut String, name: &str)
    ensures
        final(out)@ == old(out)@ + counted(name@),
{
    let bytes = name.as_bytes();
    push_decimal(out, bytes.len());
    out.append(name);
    assert(out@ =~= old(out)@ + counted(name@));
}

/// Writes a list of names behind `out`: `0` where it is empty.
fn push_counted_list(out: &mut String, names: &Vec<&str>)
    ensures
        final(out)@ == old(out)@ + counted_list(views(names@)),
{
    let n = names.len();
    let ghost all = views(names@);
    if n == 0 {
        proof {
            reveal_strlit("0");
        }
        out.append("0");
        assert(out@ =~= old(out)@ + counted_list(all));
        return ;
    }
    let mut i: usize = 0;
    while i < n
        invariant
            i <= n == names.len(),
            all == views(names@),
            out@ == old(out)@ + counted_all(all.take(i as int)),
        decreases n - i,
    {
        push_counted(out, names[i]);
        proof {
            assert(all.take(i + 1).drop_last() =~= all.take(i as int));
            assert(out@ =~= old(out)@ + counted_all(all.take(i + 1)));
        }
        i += 1;
    }
    assert(all.take(n as int) =~= all);
}

/// Writes names by the naming convention.
pub struct NamingGenerator {}

impl NamingGenerator {
    /// A generator. It holds nothing.
    pub fn new() -> Self {
        Self {  }
    }

    /// The mangled name of the function `func` of `class`, if it has one, in
    /// `namespaces`, with arguments of the types `args` and a result of the type `ret`.
    pub fn generate(
        &self,
        namespaces: Vec<&str>,
        class: Option<&str>,
        func: &str,
        args: Vec<&str>,
        ret: &str,
    ) -> (name: String)
        ensures
            name@ == mangled(views(namespaces@), class_view(class), func@, views(args@), ret@),
    {
        proof {
            reveal_strlit("_R");
            reveal_strlit("Z");
            reveal_strlit("0");
        }
        let mut name = String::from_str("_R");
        assert(name@ =~= seq!['_', 'R']);
        push_counted_list(&mut name, &namespaces);
        name.append("Z");
        match class {
            Some(class_name) => {
                push_counted(&mut name, class_name);
            },
            None => {
                name.append("0");
            },
        }
        name.append("Z");
        push_counted(&mut name, func);
        name.append("Z");
        push_counted_list(&mut name, &args);
        name.append("Z");
        push_counted(&mut name, ret);
        assert(name@ =~= mangled(
            views(namespaces@),
            class_view(class),
            func@,
            views(args@),
            ret@,
        ));
        name
    }
}

} // verus!
