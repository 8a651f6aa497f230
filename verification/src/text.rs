//! Building blocks for the messages that errors render: decimal numbers,
//! the optional schema prefix of a table name, and `Debug`-style lists.

use vstd::prelude::*;
use url::Url;

use crate::external::{url_debug, url_debug_text};

verus! {

/// The text of a single decimal digit.
pub open spec fn digit_text(d: nat) -> Seq<char> {
    if d == 0 {
        "0"@
    } else if d == 1 {
        "1"@
    } else if d == 2 {
        "2"@
    } else if d == 3 {
        "3"@
    } else if d == 4 {
        "4"@
    } else if d == 5 {
        "5"@
    } else if d == 6 {
        "6"@
    } else if d == 7 {
        "7"@
    } else if d == 8 {
        "8"@
    } else {
        "9"@
    }
}

/// The decimal rendering of a natural number, as `Display` writes an unsigned integer.
pub open spec fn decimal(n: nat) -> Seq<char>
    decreases n,
{
    if n < 10 {
        digit_text(n)
    } else {
        decimal(n / 10) + digit_text(n % 10)
    }
}

/// `"{schema}."` when a schema is given, nothing otherwise.
pub open spec fn schema_prefix(schema: Option<String>) -> Seq<char> {
    match schema {
        Some(s) => s@ + "."@,
        None => Seq::empty(),
    }
}

/// The items of a list of numbers, in decimal, separated by `", "`.
pub open spec fn joined_decimals(s: Seq<usize>) -> Seq<char>
    decreases s.len(),
{
    if s.len() == 0 {
        Seq::empty()
    } else if s.len() == 1 {
        decimal(s[0] as nat)
    } else {
        joined_decimals(s.drop_last()) + ", "@ + decimal(s.last() as nat)
    }
}

/// What `{:?}` writes for a list of numbers: `[1, 2, 3]`.
pub open spec fn usize_list_debug(s: Seq<usize>) -> Seq<char> {
    "["@ + joined_decimals(s) + "]"@
}

/// The `Debug` renderings of a list of URLs, separated by `", "`.
pub open spec fn joined_url_debugs(s: Seq<Url>) -> Seq<char>
    decreases s.len(),
{
    if s.len() == 0 {
        Seq::empty()
    } else if s.len() == 1 {
        url_debug_text(s[0])
    } else {
        joined_url_debugs(s.drop_last()) + ", "@ + url_debug_text(s.last())
    }
}

/// What `{:?}` writes for a list of URLs: `[` the items `]`.
pub open spec fn url_list_debug(s: Seq<Url>) -> Seq<char> {
    "["@ + joined_url_debugs(s) + "]"@
}

fn digit_string(d: usize) -> (r: String)
    requires
        d < 10,
    ensures
        r@ == digit_text(d as nat),
{
    if d == 0 {
        String::from_str("0")
    } else if d == 1 {
        String::from_str("1")
    } else if d == 2 {
        String::from_str("2")
    } else if d == 3 {
        String::from_str("3")
    } else if d == 4 {
        String::from_str("4")
    } else if d == 5 {
        String::from_str("5")
    } else if d == 6 {
        String::from_str("6")
    } else if d == 7 {
        String::from_str("7")
    } else if d == 8 {
        String::from_str("8")
    } else {
        String::from_str("9")
    }
}

/// Renders `n` in decimal.
pub fn decimal_string(n: usize) -> (r: String)
    ensures
        r@ == decimal(n as nat),
    decreases n,
{
    if n < 10 {
        digit_string(n)
    } else {
        let mut r = decimal_string(n / 10);
        let d = digit_string(n % 10);
        r.append(d.as_str());
        r
    }
}

/// Appends the decimal rendering of `n`.
pub fn push_decimal(r: &mut String, n: usize)
    ensures
        final(r)@ == old(r)@ + decimal(n as nat),
{
    let d = decimal_string(n);
    r.append(d.as_str());
}

/// Appends `"{schema}."` when a schema is given.
pub fn push_schema_prefix(r: &mut String, schema: &Option<String>)
    ensures
        final(r)@ == old(r)@ + schema_prefix(*schema),
{
    match schema {
        Some(s) => {
            r.append(s.as_str());
            r.append(".");
        },
        None => {
            assert(r@ + Seq::<char>::empty() =~= r@);
        },
    }
}

/// Renders a list of numbers as `{:?}` does.
pub fn usize_list_debug_string(v: &Vec<usize>) -> (r: String)
    ensures
        r@ == usize_list_debug(v@),
{
    let mut r = String::from_str("[");
    let mut i: usize = 0;
    assert(v@.take(0) =~= Seq::<usize>::empty());
    assert("["@ + joined_decimals(v@.take(0)) =~= "["@);
    while i < v.len()
        invariant
            i <= v.len(),
            r@ == "["@ + joined_decimals(v@.take(i as int)),
        decreases v.len() - i,
    {
        assert(v@.take(i + 1).drop_last() =~= v@.take(i as int));
        if i > 0 {
            r.append(", ");
        } else {
            assert(v@.take(1) =~= seq![v@[0]]);
            assert(r@ + Seq::<char>::empty() =~= r@);
        }
        push_decimal(&mut r, v[i]);
        i = i + 1;
    }
    assert(v@.take(v@.len() as int) =~= v@);
    r.append("]");
    r
}

/// Renders a list of URLs as `{:?}` does.
pub fn url_list_debug_string(v: &Vec<Url>) -> (r: String)
    ensures
        r@ == url_list_debug(v@),
{
    let mut r = String::from_str("[");
    let mut i: usize = 0;
    assert(v@.take(0) =~= Seq::<Url>::empty());
    assert("["@ + joined_url_debugs(v@.take(0)) =~= "["@);
    while i < v.len()
        invariant
            i <= v.len(),
            r@ == "["@ + joined_url_debugs(v@.take(i as int)),
        decreases v.len() - i,
    {
        assert(v@.take(i + 1).drop_last() =~= v@.take(i as int));
        if i > 0 {
            r.append(", ");
        } else {
            assert(v@.take(1) =~= seq![v@[0]]);
            assert(r@ + Seq::<char>::empty() =~= r@);
        }
        let t = url_debug(&v[i]);
        r.append(t.as_str());
        i = i + 1;
    }
    assert(v@.take(v@.len() as int) =~= v@);
    r.append("]");
    r
}

} // verus!
