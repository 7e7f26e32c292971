use vstd::prelude::*;
use vstd::string::*;

verus! {

/// The lower-case hexadecimal digit of `d`, for `d < 16`.
pub open spec fn hex_digit(d: int) -> char {
    "0123456789abcdef"@[d]
}

/// How one character stands inside a JSON string literal.
pub open spec fn escape_char(c: char) -> Seq<char> {
    if c == '"' {
        seq!['\\', '"']
    } else if c == '\\' {
        seq!['\\', '\\']
    } else if c == '\n' {
        seq!['\\', 'n']
    } else if c == '\r' {
        seq!['\\', 'r']
    } else if c == '\t' {
        seq!['\\', 't']
    } else if c == '\x08' {
        seq!['\\', 'b']
    } else if c == '\x0c' {
        seq!['\\', 'f']
    } else if (c as u32) < 0x20 {
        seq!['\\', 'u', '0', '0', hex_digit((c as u32) as int / 16), hex_digit((c as u32) as int % 16)]
    } else {
        seq![c]
    }
}

/// The characters of `s`, each escaped for a JSON string literal.
pub open spec fn escape(s: Seq<char>) -> Seq<char>
    decreases s.len(),
{
    if s.len() == 0 {
        Seq::empty()
    } else {
        escape(s.drop_last()) + escape_char(s.last())
    }
}

/// `s` as a JSON string literal, quotes included.
pub open spec fn quoted(s: Seq<char>) -> Seq<char> {
    seq!['"'] + escape(s) + seq!['"']
}

/// Appends `c`, escaped, to `out`; `one` holds `c` alone.
fn append_escaped(out: &mut String, c: char, one: &str)
    requires
        one@ == seq![c],
    ensures
        final(out)@ == old(out)@ + escape_char(c),
{
    if c == '"' {
        proof {
            reveal_strlit("\\\"");
        }
        out.append("\\\"");
    } else if c == '\\' {
        proof {
            reveal_strlit("\\\\");
        }
        out.append("\\\\");
    } else if c == '\n' {
        proof {
            reveal_strlit("\\n");
        }
        out.append("\\n");
    } else if c == '\r' {
        proof {
            reveal_strlit("\\r");
        }
        out.append("\\r");
    } else if c == '\t' {
        proof {
            reveal_strlit("\\t");
        }
        out.append("\\t");
    } else if c == '\x08' {
        proof {
            reveal_strlit("\\b");
        }
        out.append("\\b");
    } else if c == '\x0c' {
        proof {
            reveal_strlit("\\f");
        }
        out.append("\\f");
    } else if (c as u32) < 0x20 {
        let v: u32 = c as u32;
        let digits = "0123456789abcdef";
        proof {
            reveal_strlit("\\u00");
            reveal_strlit("0123456789abcdef");
        }
        out.append("\\u00");
        out.append(digits.substring_char((v / 16) as usize, (v / 16 + 1) as usize));
        out.append(digits.substring_char((v % 16) as usize, (v % 16 + 1) as usize));
        assert(out@ =~= old(out)@ + escape_char(c));
    } else {
        out.append(one);
    }
}

/// Appends `s` to `out` as a JSON string literal.
pub fn append_quoted(out: &mut String, s: &str)
    ensures
        final(out)@ == old(out)@ + quoted(s@),
{
    proof {
        reveal_strlit("\"");
    }
    out.append("\"");
    let n = s.unicode_len();
    let mut i: usize = 0;
    while i < n
        invariant
            n == s@.len(),
            i <= n,
            out@ == old(out)@ + seq!['"'] + escape(s@.subrange(0, i as int)),
        decreases n - i,
    {
        let c = s.get_char(i);
        let one = s.substring_char(i, i + 1);
        assert(one@ =~= seq![c]);
        append_escaped(out, c, one);
        assert(s@.subrange(0, i + 1).drop_last() =~= s@.subrange(0, i as int));
        i = i + 1;
    }
    out.append("\"");
    assert(s@.subrange(0, n as int) =~= s@);
    assert(out@ =~= old(out)@ + quoted(s@));
}

} // verus!
