//! Text rendering shared by the message types: exact string comparison,
//! decimal numbers, and the debug forms of strings and lists.

use vstd::prelude::*;
use vstd::string::StringExecFns;

verus! {

/// Whether two strings hold the same characters.
pub fn str_equals(a: &str, b: &str) -> (r: bool)
    ensures
        r == (a@ == b@),
{
    let n = a.unicode_len();
    let m = b.unicode_len();
    if n != m {
        return false;
    }
    let mut i: usize = 0;
    while i < n
        invariant
            n == a@.len(),
            m == b@.len(),
            n == m,
            i <= n,
            forall|j: int| 0 <= j < i ==> a@[j] == b@[j],
        decreases n - i,
    {
        if a.get_char(i) != b.get_char(i) {
            return false;
        }
        i = i + 1;
    }
    assert(a@ =~= b@);
    true
}

/// The text of one decimal digit.
pub open spec fn digit_text(d: nat) -> Seq<char> {
    if d == 0 {
        "0"@
    } else if d == 1 {
        "1"@
    } else if d == 2 {
        "2"@
    } else if d == 3 {
        "3"@
    } else if d == 4 {
        "4"@
    } else if d == 5 {
        "5"@
    } else if d == 6 {
        "6"@
    } else if d == 7 {
        "7"@
    } else if d == 8 {
        "8"@
    } else {
        "9"@
    }
}

/// The decimal text of a natural number, without leading zeros.
pub open spec fn decimal_text(n: nat) -> Seq<char>
    decreases n,
{
    if n < 10 {
        digit_text(n)
    } else {
        decimal_text(n / 10) + digit_text(n % 10)
    }
}

/// The text of a boolean, `true` or `false`.
pub open spec fn bool_text(b: bool) -> Seq<char> {
    if b {
        "true"@
    } else {
        "false"@
    }
}

/// The debug form of a string: the string in double quotes, with the
/// characters that need it escaped, as `<str as core::fmt::Debug>` writes it.
pub uninterp spec fn quoted_form(s: Seq<char>) -> Seq<char>;

/// The debug form of an optional string: `None`, or `Some(..)` around the
/// quoted string.
pub open spec fn opt_quoted_form(o: Option<Seq<char>>) -> Seq<char> {
    match o {
        Some(s) => "Some("@ + quoted_form(s) + ")"@,
        None => "None"@,
    }
}

/// The quoted forms of the items, separated by `, `.
pub open spec fn joined_quoted_form(items: Seq<Seq<char>>) -> Seq<char>
    decreases items.len(),
{
    if items.len() == 0 {
        Seq::empty()
    } else if items.len() == 1 {
        quoted_form(items[0])
    } else {
        joined_quoted_form(items.drop_last()) + ", "@ + quoted_form(items.last())
    }
}

/// The debug form of a list of strings: the quoted items in square brackets.
pub open spec fn list_quoted_form(items: Seq<Seq<char>>) -> Seq<char> {
    "["@ + joined_quoted_form(items) + "]"@
}

/// The pretty (`{:#?}`) debug form of an optional string standing as a field
/// of a struct: `None`, or `Some(` with the quoted string on its own line
/// indented by eight spaces.
pub open spec fn opt_quoted_pretty_form(o: Option<Seq<char>>) -> Seq<char> {
    match o {
        Some(s) => "Some(\n        "@ + quoted_form(s) + ",\n    )"@,
        None => "None"@,
    }
}

/// Each quoted item on its own line, indented by eight spaces and followed by
/// a comma.
pub open spec fn lines_quoted_pretty_form(items: Seq<Seq<char>>) -> Seq<char>
    decreases items.len(),
{
    if items.len() == 0 {
        Seq::empty()
    } else {
        lines_quoted_pretty_form(items.drop_last()) + "        "@ + quoted_form(items.last()) + ",\n"@
    }
}

/// The pretty (`{:#?}`) debug form of a list of strings standing as a field
/// of a struct: `[]` when empty, else the items one per line.
pub open spec fn list_quoted_pretty_form(items: Seq<Seq<char>>) -> Seq<char> {
    if items.len() == 0 {
        "[]"@
    } else {
        "[\n"@ + lines_quoted_pretty_form(items) + "    ]"@
    }
}

/// `<str as core::fmt::Debug>::fmt`, through `format!("{:?}", ..)`. Its
/// output is named by `quoted_form`; nothing more is claimed of it.
#[verifier::external_body]
fn quoted(s: &str) -> (r: String)
    ensures
        r@ == quoted_form(s@),
{
    format!("{:?}", s)
}

/// Appends the text of one decimal digit.
fn append_digit(out: &mut String, d: u32)
    requires
        d < 10,
    ensures
        final(out)@ == old(out)@ + digit_text(d as nat),
{
    let t = match d {
        0 => "0",
        1 => "1",
        2 => "2",
        3 => "3",
        4 => "4",
        5 => "5",
        6 => "6",
        7 => "7",
        8 => "8",
        _ => "9",
    };
    out.append(t);
}

/// Appends the decimal text of `n`.
pub fn append_decimal(out: &mut String, n: u32)
    ensures
        final(out)@ == old(out)@ + decimal_text(n as nat),
    decreases n,
{
    if n < 10 {
        append_digit(out, n);
    } else {
        let ghost before = out@;
        append_decimal(out, n / 10);
        append_digit(out, n % 10);
        assert(out@ =~= before + decimal_text(n as nat));
    }
}

/// Appends `true` or `false`.
pub fn append_bool(out: &mut String, b: bool)
    ensures
        final(out)@ == old(out)@ + bool_text(b),
{
    if b {
        out.append("true");
    } else {
        out.append("false");
    }
}

/// Appends the debug form of a string.
pub fn append_quoted(out: &mut String, s: &str)
    ensures
        final(out)@ == old(out)@ + quoted_form(s@),
{
    let q = quoted(s);
    out.append(q.as_str());
}

/// Appends the debug form of an optional string.
pub fn append_opt_quoted(out: &mut String, o: &Option<String>)
    ensures
        final(out)@ == old(out)@ + opt_quoted_form(o.deep_view()),
{
    match o {
        Some(s) => {
            let ghost before = out@;
            out.append("Some(");
            append_quoted(out, s.as_str());
            out.append(")");
            assert(out@ =~= before + opt_quoted_form(o.deep_view()));
        },
        None => {
            out.append("None");
        },
    }
}

/// Appends the debug form of a list of strings.
pub fn append_list_quoted(out: &mut String, items: &Vec<String>)
    ensures
        final(out)@ == old(out)@ + list_quoted_form(items.deep_view()),
{
    let ghost before = out@;
    let ghost all = items.deep_view();
    out.append("[");
    let mut i: usize = 0;
    while i < items.len()
        invariant
            i <= items.len(),
            all == items.deep_view(),
            out@ == before + "["@ + joined_quoted_form(all.take(i as int)),
        decreases items.len() - i,
    {
        if i > 0 {
            out.append(", ");
        }
        append_quoted(out, items[i].as_str());
        proof {
            let t = all.take(i + 1);
            assert(t.drop_last() =~= all.take(i as int));
            assert(t.last() == items[i as int]@);
            if i == 0 {
                assert(joined_quoted_form(all.take(0)) =~= Seq::<char>::empty());
            }
            assert(out@ =~= before + "["@ + joined_quoted_form(t));
        }
        i = i + 1;
    }
    assert(all.take(items.len() as int) =~= all);
    out.append("]");
}

/// Appends the pretty debug form of an optional string field.
pub fn append_opt_quoted_pretty(out: &mut String, o: &Option<String>)
    ensures
        final(out)@ == old(out)@ + opt_quoted_pretty_form(o.deep_view()),
{
    match o {
        Some(s) => {
            let ghost before = out@;
            out.append("Some(\n        ");
            append_quoted(out, s.as_str());
            out.append(",\n    )");
            assert(out@ =~= before + opt_quoted_pretty_form(o.deep_view()));
        },
        None => {
            out.append("None");
        },
    }
}

/// Appends the pretty debug form of a list-of-strings field.
pub fn append_list_quoted_pretty(out: &mut String, items: &Vec<String>)
    ensures
        final(out)@ == old(out)@ + list_quoted_pretty_form(items.deep_view()),
{
    if items.len() == 0 {
        out.append("[]");
        return;
    }
    let ghost before = out@;
    let ghost all = items.deep_view();
    out.append("[\n");
    let mut i: usize = 0;
    while i < items.len()
        invariant
            i <= items.len(),
            all == items.deep_view(),
            out@ == before + "[\n"@ + lines_quoted_pretty_form(all.take(i as int)),
        decreases items.len() - i,
    {
        out.append("        ");
        append_quoted(out, items[i].as_str());
        out.append(",\n");
        proof {
            let t = all.take(i + 1);
            assert(t.drop_last() =~= all.take(i as int));
            assert(t.last() == items[i as int]@);
            assert(out@ =~= before + "[\n"@ + lines_quoted_pretty_form(t));
        }
        i = i + 1;
    }
    assert(all.take(items.len() as int) =~= all);
    out.append("    ]");
}

/// Regrouping a text made of three consecutive parts.
pub proof fn lemma_concat_regroup(a: Seq<char>, b: Seq<char>, c: Seq<char>)
    ensures
        (a + b) + c == a + (b + c),
{
    assert((a + b) + c =~= a + (b + c));
}

/// Regrouping a text made of four consecutive parts.
pub proof fn lemma_concat_regroup4(a: Seq<char>, b: Seq<char>, c: Seq<char>, d: Seq<char>)
    ensures
        ((a + b) + c) + d == a + ((b + c) + d),
{
    assert(((a + b) + c) + d =~= a + ((b + c) + d));
}

/// Two texts each made of a first and a second part are equal, and their
/// first parts (or their second parts) have the same length: then the first
/// parts are equal and so are the second parts.
pub proof fn lemma_concat_parts_eq(p1: Seq<char>, s1: Seq<char>, p2: Seq<char>, s2: Seq<char>)
    requires
        p1 + s1 == p2 + s2,
        p1.len() == p2.len() || s1.len() == s2.len(),
    ensures
        p1 == p2,
        s1 == s2,
{
    let t = p1 + s1;
    assert(p1 =~= t.subrange(0, p1.len() as int));
    assert(p2 =~= t.subrange(0, p2.len() as int));
    assert(s1 =~= t.subrange(p1.len() as int, t.len() as int));
    assert(s2 =~= t.subrange(p2.len() as int, t.len() as int));
}

/// Different booleans have different texts.
pub proof fn lemma_bool_text_injective(a: bool, b: bool)
    ensures
        bool_text(a) == bool_text(b) ==> a == b,
{
    reveal_strlit("true");
    reveal_strlit("false");
    assert("true"@.len() != "false"@.len());
}

/// Each digit text is one character, and different digits have different
/// characters.
pub proof fn lemma_digit_text_injective(a: nat, b: nat)
    requires
        a < 10,
        b < 10,
    ensures
        digit_text(a).len() == 1,
        digit_text(a)[0] == digit_text(b)[0] ==> a == b,
{
    reveal_strlit("0");
    reveal_strlit("1");
    reveal_strlit("2");
    reveal_strlit("3");
    reveal_strlit("4");
    reveal_strlit("5");
    reveal_strlit("6");
    reveal_strlit("7");
    reveal_strlit("8");
    reveal_strlit("9");
}

/// A decimal text has one character below 10 and more from 10 on.
pub proof fn lemma_decimal_text_len(n: nat)
    ensures
        decimal_text(n).len() >= 1,
        decimal_text(n).len() == 1 <==> n < 10,
    decreases n,
{
    if n < 10 {
        lemma_digit_text_injective(n, n);
    } else {
        lemma_decimal_text_len(n / 10);
        lemma_digit_text_injective(n % 10, n % 10);
    }
}

/// Different numbers have different decimal texts.
pub proof fn lemma_decimal_text_injective(x: nat, y: nat)
    ensures
        decimal_text(x) == decimal_text(y) ==> x == y,
    decreases x + y,
{
    if decimal_text(x) == decimal_text(y) {
        lemma_decimal_text_len(x);
        lemma_decimal_text_len(y);
        if x < 10 && y < 10 {
            lemma_digit_text_injective(x, y);
        } else if x >= 10 && y >= 10 {
            lemma_digit_text_injective(x % 10, y % 10);
            lemma_digit_text_injective(y % 10, x % 10);
            lemma_concat_parts_eq(
                decimal_text(x / 10),
                digit_text(x % 10),
                decimal_text(y / 10),
                digit_text(y % 10),
            );
            lemma_decimal_text_injective(x / 10, y / 10);
        }
    }
}

/// The debug form of an optional string shows whether the string is present,
/// and when it is, its quoted form.
pub proof fn lemma_opt_quoted_form_determines(a: Option<Seq<char>>, b: Option<Seq<char>>)
    ensures
        opt_quoted_form(a) == opt_quoted_form(b) ==> {
            &&& (a is Some <==> b is Some)
            &&& (a is Some && b is Some ==> quoted_form(a.unwrap()) == quoted_form(b.unwrap()))
        },
{
    reveal_strlit("None");
    reveal_strlit("Some(");
    if opt_quoted_form(a) == opt_quoted_form(b) {
        if a is Some && b is None {
            assert(opt_quoted_form(a)[0] == 'S');
        } else if a is None && b is Some {
            assert(opt_quoted_form(b)[0] == 'S');
        } else if a is Some && b is Some {
            let qa = quoted_form(a.unwrap());
            let qb = quoted_form(b.unwrap());
            lemma_concat_parts_eq("Some("@ + qa, ")"@, "Some("@ + qb, ")"@);
            lemma_concat_parts_eq("Some("@, qa, "Some("@, qb);
        }
    }
}

/// The pretty debug form of an optional string field shows whether the
/// string is present, and when it is, its quoted form.
pub proof fn lemma_opt_quoted_pretty_form_determines(a: Option<Seq<char>>, b: Option<Seq<char>>)
    ensures
        opt_quoted_pretty_form(a) == opt_quoted_pretty_form(b) ==> {
            &&& (a is Some <==> b is Some)
            &&& (a is Some && b is Some ==> quoted_form(a.unwrap()) == quoted_form(b.unwrap()))
        },
{
    reveal_strlit("None");
    reveal_strlit("Some(\n        ");
    if opt_quoted_pretty_form(a) == opt_quoted_pretty_form(b) {
        if a is Some && b is None {
            assert(opt_quoted_pretty_form(a)[0] == 'S');
        } else if a is None && b is Some {
            assert(opt_quoted_pretty_form(b)[0] == 'S');
        } else if a is Some && b is Some {
            let qa = quoted_form(a.unwrap());
            let qb = quoted_form(b.unwrap());
            lemma_concat_parts_eq("Some(\n        "@ + qa, ",\n    )"@, "Some(\n        "@ + qb, ",\n    )"@);
            lemma_concat_parts_eq("Some(\n        "@, qa, "Some(\n        "@, qb);
        }
    }
}

/// The pretty debug form of a list field shows whether the list is empty.
pub proof fn lemma_list_quoted_pretty_form_emptiness(a: Seq<Seq<char>>, b: Seq<Seq<char>>)
    ensures
        list_quoted_pretty_form(a) == list_quoted_pretty_form(b) ==> (a.len() == 0 <==> b.len() == 0),
{
    reveal_strlit("[]");
    reveal_strlit("[\n");
    reveal_strlit("    ]");
    if list_quoted_pretty_form(a) == list_quoted_pretty_form(b) {
        assert("[]"@.len() == 2);
        if a.len() != 0 {
            lemma_lines_len(a);
            assert(list_quoted_pretty_form(a).len() >= 12);
        }
        if b.len() != 0 {
            lemma_lines_len(b);
            assert(list_quoted_pretty_form(b).len() >= 12);
        }
    }
}

/// The lines of a non-empty list take at least ten characters.
proof fn lemma_lines_len(items: Seq<Seq<char>>)
    requires
        items.len() != 0,
    ensures
        lines_quoted_pretty_form(items).len() >= 10,
    decreases items.len(),
{
    reveal_strlit("        ");
    reveal_strlit(",\n");
}

/// The number a text of decimal digits denotes, most significant digit
/// first.
pub open spec fn decimal_value(t: Seq<char>) -> int
    decreases t.len(),
{
    if t.len() == 0 {
        0
    } else {
        decimal_value(t.drop_last()) * 10 + (t.last() as int - '0' as int)
    }
}

/// A digit's text is one character whose code is the digit's value past `0`.
proof fn lemma_digit_value(d: nat)
    requires
        d < 10,
    ensures
        digit_text(d).len() == 1,
        digit_text(d)[0] as int - '0' as int == d,
{
    reveal_strlit("0");
    reveal_strlit("1");
    reveal_strlit("2");
    reveal_strlit("3");
    reveal_strlit("4");
    reveal_strlit("5");
    reveal_strlit("6");
    reveal_strlit("7");
    reveal_strlit("8");
    reveal_strlit("9");
    if d == 0 {
    } else if d == 1 {
    } else if d == 2 {
    } else if d == 3 {
    } else if d == 4 {
    } else if d == 5 {
    } else if d == 6 {
    } else if d == 7 {
    } else if d == 8 {
    } else {
    }
}

/// Reading back the decimal text of a number gives the number.
pub proof fn lemma_decimal_text_reads_back(n: nat)
    ensures
        decimal_value(decimal_text(n)) == n,
    decreases n,
{
    if n < 10 {
        lemma_digit_value(n);
        let t = digit_text(n);
        assert(t.drop_last() =~= Seq::<char>::empty());
        assert(decimal_value(t.drop_last()) == 0);
    } else {
        lemma_decimal_text_reads_back(n / 10);
        lemma_digit_value(n % 10);
        let t = decimal_text(n);
        assert(t.drop_last() =~= decimal_text(n / 10));
        assert(t.last() == digit_text(n % 10)[0]);
    }
}

/// The text of a boolean is `true` exactly when the boolean is true.
pub proof fn lemma_bool_text_reads_back(b: bool)
    ensures
        (bool_text(b) == "true"@) == b,
        (bool_text(b) == "false"@) == !b,
{
    lemma_bool_text_injective(true, false);
}

/// The debug form of the items of two non-empty lists put one after the
/// other is the form of the first list, `, `, then the form of the second:
/// the items show in their order, separated by commas.
pub proof fn lemma_joined_quoted_form_concat(a: Seq<Seq<char>>, b: Seq<Seq<char>>)
    requires
        a.len() > 0,
        b.len() > 0,
    ensures
        joined_quoted_form(a + b) == joined_quoted_form(a) + ", "@ + joined_quoted_form(b),
    decreases b.len(),
{
    if b.len() == 1 {
        assert((a + b).drop_last() =~= a);
    } else {
        let c = b.drop_last();
        lemma_joined_quoted_form_concat(a, c);
        assert((a + b).drop_last() =~= a + c);
        assert(joined_quoted_form(a + b) =~= joined_quoted_form(a) + ", "@ + joined_quoted_form(b));
    }
}

/// The pretty lines of two lists put one after the other are the lines of
/// the first list, then those of the second: the items show in their order.
pub proof fn lemma_lines_quoted_pretty_form_concat(a: Seq<Seq<char>>, b: Seq<Seq<char>>)
    ensures
        lines_quoted_pretty_form(a + b) == lines_quoted_pretty_form(a) + lines_quoted_pretty_form(b),
    decreases b.len(),
{
    if b.len() == 0 {
        assert(a + b =~= a);
        assert(lines_quoted_pretty_form(a) + lines_quoted_pretty_form(b) =~= lines_quoted_pretty_form(a));
    } else {
        let c = b.drop_last();
        lemma_lines_quoted_pretty_form_concat(a, c);
        assert((a + b).drop_last() =~= a + c);
        assert(lines_quoted_pretty_form(a + b) =~= lines_quoted_pretty_form(a) + lines_quoted_pretty_form(b));
    }
}

} // verus!
