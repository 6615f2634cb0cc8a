//! Verified text helpers: character-exact equality, leading-whitespace
//! trimming, joining and splitting, and the small renderings that the
//! rest of the core builds its strings from.
use itertools::Itertools;
use vstd::prelude::*;
use vstd::string::StrSliceExecFns;
use vstd::string::StringExecFns;

verus! {

/// Two string slices are equal exactly when their character sequences are.
pub fn str_eq(a: &str, b: &str) -> (r: bool)
    ensures
        r == (a@ == b@),
{
    let a_len = a.unicode_len();
    let b_len = b.unicode_len();
    if a_len != b_len {
        return false;
    }
    let mut i: usize = 0;
    while i < a_len
        invariant
            a_len == a@.len(),
            b_len == b@.len(),
            a_len == b_len,
            i <= a_len,
            forall|j: int| 0 <= j < i ==> a@[j] == b@[j],
        decreases a_len - i,
    {
        if a.get_char(i) != b.get_char(i) {
            return false;
        }
        i += 1;
    }
    proof {
        assert(a@ =~= b@);
    }
    true
}

/// The characters treated as whitespace when a reply is trimmed:
/// the Unicode `White_Space` set.
pub open spec fn is_whitespace_char(c: char) -> bool {
    ||| c == ' '
    ||| c == '\t'
    ||| c == '\n'
    ||| c == '\r'
    ||| c as u32 == 0x0b
    ||| c as u32 == 0x0c
    ||| c as u32 == 0x85
    ||| c as u32 == 0xa0
    ||| c as u32 == 0x1680
    ||| (0x2000 <= c as u32 && c as u32 <= 0x200a)
    ||| c as u32 == 0x2028
    ||| c as u32 == 0x2029
    ||| c as u32 == 0x202f
    ||| c as u32 == 0x205f
    ||| c as u32 == 0x3000
}

pub fn whitespace_char(c: char) -> (r: bool)
    ensures
        r == is_whitespace_char(c),
{
    let u = c as u32;
    u == 0x20 || u == 0x09 || u == 0x0a || u == 0x0d || u == 0x0b || u == 0x0c || u == 0x85
        || u == 0xa0 || u == 0x1680 || (0x2000 <= u && u <= 0x200a) || u == 0x2028 || u == 0x2029
        || u == 0x202f || u == 0x205f || u == 0x3000
}

/// `s` with its leading whitespace removed and nothing else changed.
pub open spec fn spec_trim_start(s: Seq<char>) -> Seq<char>
    decreases s.len(),
{
    if s.len() > 0 && is_whitespace_char(s[0]) {
        spec_trim_start(s.drop_first())
    } else {
        s
    }
}

/// Removes leading whitespace; the rest of the string is unchanged.
pub fn trim_start(s: &str) -> (r: String)
    ensures
        r@ == spec_trim_start(s@),
{
    let len = s.unicode_len();
    let mut i: usize = 0;
    proof {
        assert(s@.skip(0) =~= s@);
    }
    while i < len && whitespace_char(s.get_char(i))
        invariant
            len == s@.len(),
            i <= len,
            spec_trim_start(s@) == spec_trim_start(s@.skip(i as int)),
        decreases len - i,
    {
        proof {
            assert(s@.skip(i as int)[0] == s@[i as int]);
            assert(s@.skip(i as int).drop_first() =~= s@.skip(i as int + 1));
        }
        i += 1;
    }
    proof {
        if i == len {
            assert(s@.skip(len as int) =~= Seq::<char>::empty());
        }
        assert(spec_trim_start(s@.skip(i as int)) == s@.skip(i as int));
        assert(s@.subrange(i as int, len as int) =~= s@.skip(i as int));
    }
    let r = s.substring_char(i, len);
    r.to_owned()
}

/// `c` as it appears inside a quoted rendering: a backslash escape for
/// the line break, carriage return, tab, NUL, quotation mark and
/// backslash; any other character stands for itself.
pub open spec fn spec_escape_char(c: char) -> Seq<char> {
    if c == '"' {
        "\\\""@
    } else if c == '\\' {
        "\\\\"@
    } else if c == '\n' {
        "\\n"@
    } else if c == '\r' {
        "\\r"@
    } else if c == '\t' {
        "\\t"@
    } else if c == '\0' {
        "\\0"@
    } else {
        seq![c]
    }
}

/// `s` with every character escaped as [`spec_escape_char`] says.
pub open spec fn spec_escaped(s: Seq<char>) -> Seq<char>
    decreases s.len(),
{
    if s.len() == 0 {
        Seq::empty()
    } else {
        spec_escape_char(s[0]) + spec_escaped(s.drop_first())
    }
}

/// Escaping distributes over appending one character.
proof fn lemma_escaped_push(s: Seq<char>, c: char)
    ensures
        spec_escaped(s.push(c)) == spec_escaped(s) + spec_escape_char(c),
    decreases s.len(),
{
    let pushed = s.push(c);
    assert(spec_escaped(pushed) == spec_escape_char(pushed[0]) + spec_escaped(
        pushed.drop_first(),
    ));
    if s.len() == 0 {
        assert(pushed[0] == c);
        assert(pushed.drop_first() =~= Seq::<char>::empty());
        assert(spec_escaped(Seq::<char>::empty()) == Seq::<char>::empty());
        assert(spec_escape_char(c) + Seq::<char>::empty() =~= spec_escape_char(c));
        assert(spec_escaped(s) + spec_escape_char(c) =~= spec_escape_char(c));
    } else {
        assert(pushed[0] == s[0]);
        assert(pushed.drop_first() =~= s.drop_first().push(c));
        lemma_escaped_push(s.drop_first(), c);
        assert(spec_escaped(s) == spec_escape_char(s[0]) + spec_escaped(s.drop_first()));
        assert(spec_escape_char(s[0]) + (spec_escaped(s.drop_first()) + spec_escape_char(c)) =~= (
        spec_escape_char(s[0]) + spec_escaped(s.drop_first())) + spec_escape_char(c));
    }
}

/// `s` with its special characters turned into backslash escapes.
pub fn escaped(s: &str) -> (r: String)
    ensures
        r@ == spec_escaped(s@),
{
    let len = s.unicode_len();
    let mut r = String::new();
    let mut i: usize = 0;
    proof {
        assert(spec_escaped(s@.take(0)) =~= Seq::<char>::empty());
    }
    while i < len
        invariant
            len == s@.len(),
            i <= len,
            r@ == spec_escaped(s@.take(i as int)),
        decreases len - i,
    {
        let c = s.get_char(i);
        if c == '"' {
            r.append("\\\"");
        } else if c == '\\' {
            r.append("\\\\");
        } else if c == '\n' {
            r.append("\\n");
        } else if c == '\r' {
            r.append("\\r");
        } else if c == '\t' {
            r.append("\\t");
        } else if c == '\0' {
            r.append("\\0");
        } else {
            let one = s.substring_char(i, i + 1);
            r.append(one);
            proof {
                assert(s@.subrange(i as int, i as int + 1) =~= seq![s@[i as int]]);
            }
        }
        proof {
            assert(s@.take(i as int + 1) =~= s@.take(i as int).push(s@[i as int]));
            lemma_escaped_push(s@.take(i as int), s@[i as int]);
        }
        i += 1;
    }
    proof {
        assert(s@.take(len as int) =~= s@);
    }
    r
}

/// The elements of `parts` in order, with `sep` between each adjacent pair.
pub open spec fn spec_join(parts: Seq<Seq<char>>, sep: Seq<char>) -> Seq<char>
    decreases parts.len(),
{
    if parts.len() == 0 {
        Seq::empty()
    } else if parts.len() == 1 {
        parts[0]
    } else {
        parts[0] + sep + spec_join(parts.drop_first(), sep)
    }
}

/// Relies on itertools' `Itertools::join`: it writes the elements in
/// order with `sep` between each adjacent pair, and `Display` of a
/// `String` writes the string itself.
#[verifier::external_body]
pub(crate) fn join_strings(parts: &Vec<String>, sep: &str) -> (r: String)
    ensures
        r@ == spec_join(parts@.map_values(|p: String| p@), sep@),
{
    parts.iter().join(sep)
}

/// The comma-separated fields of `s`, in order, empty fields dropped.
pub open spec fn spec_split_commas_from(s: Seq<char>, cur: Seq<char>) -> Seq<Seq<char>>
    decreases s.len(),
{
    if s.len() == 0 {
        if cur.len() > 0 {
            seq![cur]
        } else {
            Seq::empty()
        }
    } else if s[0] == ',' {
        (if cur.len() > 0 {
            seq![cur]
        } else {
            Seq::empty()
        }) + spec_split_commas_from(s.drop_first(), Seq::empty())
    } else {
        spec_split_commas_from(s.drop_first(), cur.push(s[0]))
    }
}

/// The comma-separated fields of `s`, in order, empty fields dropped.
pub open spec fn spec_split_commas(s: Seq<char>) -> Seq<Seq<char>> {
    spec_split_commas_from(s, Seq::empty())
}

/// Splits `s` at every comma; the fields come back in order, with empty
/// fields dropped and nothing inside a field changed.
pub fn split_commas(s: &str) -> (r: Vec<String>)
    ensures
        r@.map_values(|p: String| p@) == spec_split_commas(s@),
{
    let len = s.unicode_len();
    let mut fields: Vec<String> = Vec::new();
    let mut start: usize = 0;
    let mut i: usize = 0;
    proof {
        assert(s@.skip(0) =~= s@);
        assert(s@.subrange(0, 0) =~= Seq::<char>::empty());
        assert(fields@.map_values(|p: String| p@) + spec_split_commas_from(s@, Seq::empty())
            =~= spec_split_commas_from(s@, Seq::empty()));
    }
    while i < len
        invariant
            len == s@.len(),
            start <= i <= len,
            spec_split_commas(s@) == fields@.map_values(|p: String| p@) + spec_split_commas_from(
                s@.skip(i as int),
                s@.subrange(start as int, i as int),
            ),
        decreases len - i,
    {
        let ghost cur = s@.subrange(start as int, i as int);
        proof {
            assert(s@.skip(i as int)[0] == s@[i as int]);
            assert(s@.skip(i as int).drop_first() =~= s@.skip(i as int + 1));
        }
        if s.get_char(i) == ',' {
            if i > start {
                let field = s.substring_char(start, i).to_owned();
                let ghost old_fields = fields@;
                fields.push(field);
                proof {
                    assert(fields@.map_values(|p: String| p@) =~= old_fields.map_values(
                        |p: String| p@,
                    ).push(cur));
                    assert(old_fields.map_values(|p: String| p@).push(cur) =~= old_fields.map_values(
                        |p: String| p@,
                    ) + seq![cur]);
                }
            }
            start = i + 1;
            proof {
                assert(s@.subrange(start as int, i as int + 1) =~= Seq::<char>::empty());
            }
        } else {
            proof {
                assert(cur.push(s@[i as int]) =~= s@.subrange(start as int, i as int + 1));
            }
        }
        i += 1;
    }
    proof {
        assert(s@.skip(len as int) =~= Seq::<char>::empty());
    }
    if len > start {
        let field = s.substring_char(start, len).to_owned();
        let ghost old_fields = fields@;
        let ghost cur = s@.subrange(start as int, len as int);
        fields.push(field);
        proof {
            assert(fields@.map_values(|p: String| p@) =~= old_fields.map_values(|p: String| p@)
                + seq![cur]);
        }
    } else {
        proof {
            assert(s@.subrange(start as int, len as int).len() == 0);
            assert(fields@.map_values(|p: String| p@) + Seq::<Seq<char>>::empty() =~= fields@.map_values(
                |p: String| p@,
            ));
        }
    }
    fields
}

/// The decimal digit `d` as a one-character string.
pub open spec fn spec_digit(d: int) -> Seq<char> {
    if d == 0 {
        "0"@
    } else if d == 1 {
        "1"@
    } else if d == 2 {
        "2"@
    } else if d == 3 {
        "3"@
    } else if d == 4 {
        "4"@
    } else if d == 5 {
        "5"@
    } else if d == 6 {
        "6"@
    } else if d == 7 {
        "7"@
    } else if d == 8 {
        "8"@
    } else {
        "9"@
    }
}

/// The decimal digit `d` as a one-character string slice.
pub fn digit_str(d: u8) -> (r: &'static str)
    requires
        d < 10,
    ensures
        r@ == spec_digit(d as int),
{
    match d {
        0 => "0",
        1 => "1",
        2 => "2",
        3 => "3",
        4 => "4",
        5 => "5",
        6 => "6",
        7 => "7",
        8 => "8",
        _ => "9",
    }
}

/// One error-log line: `[UTC <timestamp>] <detail>` and a line break.
pub fn format_log_line(timestamp: &str, detail: &str) -> (r: String)
    ensures
        r@ == "[UTC "@ + timestamp@ + "] "@ + detail@ + "\n"@,
{
    let mut line = "[UTC ".to_owned();
    line.append(timestamp);
    line.append("] ");
    line.append(detail);
    line.append("\n");
    line
}

} // verus!
