//! Header handling: splitting a raw header line into a trimmed name/value
//! pair, and skipping lines that have no separator.
//!
//! Header pairs keep their wire order and duplicates; a line without a colon
//! is malformed and silently dropped, as are no other lines.

use vstd::prelude::*;

verus! {

/// One response header as received: a name and a value, both trimmed of
/// surrounding whitespace, order and case preserved.
#[derive(Clone, Debug)]
pub struct Header {
    pub name: String,
    pub value: String,
}

impl View for Header {
    type V = (Seq<char>, Seq<char>);

    open spec fn view(&self) -> (Seq<char>, Seq<char>) {
        (self.name@, self.value@)
    }
}

/// The whitespace trimmed from header names and values: the characters of
/// the Unicode White_Space category, the set `str::trim` removes.
pub open spec fn is_space_char(c: char) -> bool {
    ||| c == ' '
    ||| c == '\t'
    ||| c == '\n'
    ||| c == '\u{0B}'
    ||| c == '\u{0C}'
    ||| c == '\r'
    ||| c == '\u{85}'
    ||| c == '\u{A0}'
    ||| c == '\u{1680}'
    ||| c == '\u{2000}'
    ||| c == '\u{2001}'
    ||| c == '\u{2002}'
    ||| c == '\u{2003}'
    ||| c == '\u{2004}'
    ||| c == '\u{2005}'
    ||| c == '\u{2006}'
    ||| c == '\u{2007}'
    ||| c == '\u{2008}'
    ||| c == '\u{2009}'
    ||| c == '\u{200A}'
    ||| c == '\u{2028}'
    ||| c == '\u{2029}'
    ||| c == '\u{202F}'
    ||| c == '\u{205F}'
    ||| c == '\u{3000}'
}

/// `s` without its leading whitespace.
pub open spec fn spec_trim_front(s: Seq<char>) -> Seq<char>
    decreases s.len(),
{
    if s.len() > 0 && is_space_char(s[0]) {
        spec_trim_front(s.skip(1))
    } else {
        s
    }
}

/// `s` without its trailing whitespace.
pub open spec fn spec_trim_back(s: Seq<char>) -> Seq<char>
    decreases s.len(),
{
    if s.len() > 0 && is_space_char(s[s.len() - 1]) {
        spec_trim_back(s.take(s.len() - 1))
    } else {
        s
    }
}

/// `s` without surrounding whitespace.
pub open spec fn spec_trim(s: Seq<char>) -> Seq<char> {
    spec_trim_back(spec_trim_front(s))
}

/// The index of the first colon in `s`, or `s.len()` when there is none.
pub open spec fn spec_find_colon(s: Seq<char>) -> int
    decreases s.len(),
{
    if s.len() == 0 {
        0
    } else if s[0] == ':' {
        0
    } else {
        1 + spec_find_colon(s.skip(1))
    }
}

/// How one raw header line parses: split at the first colon into a trimmed
/// name and a trimmed value, or nothing when the line has no colon.
pub open spec fn spec_parse_header_line(s: Seq<char>) -> Option<(Seq<char>, Seq<char>)> {
    let i = spec_find_colon(s);
    if i == s.len() {
        None
    } else {
        Some((spec_trim(s.take(i)), spec_trim(s.skip(i + 1))))
    }
}

/// The name/value pairs of a whole header block: each line that parses
/// contributes one pair, in order; malformed lines contribute nothing.
pub open spec fn spec_parse_headers(lines: Seq<Seq<char>>) -> Seq<(Seq<char>, Seq<char>)>
    decreases lines.len(),
{
    if lines.len() == 0 {
        Seq::empty()
    } else {
        let rest = spec_parse_headers(lines.drop_last());
        match spec_parse_header_line(lines.last()) {
            Some(p) => rest.push(p),
            None => rest,
        }
    }
}

/// The name/value views of a parsed header list.
pub open spec fn spec_headers_views(hs: Seq<Header>) -> Seq<(Seq<char>, Seq<char>)> {
    hs.map_values(|h: Header| h@)
}

/// Whether `c` is one of the whitespace characters the trimmer removes.
fn is_space(c: char) -> (r: bool)
    ensures
        r == is_space_char(c),
{
    c == ' ' || c == '\t' || c == '\n' || c == '\u{0B}' || c == '\u{0C}' || c == '\r'
        || c == '\u{85}' || c == '\u{A0}' || c == '\u{1680}' || c == '\u{2000}'
        || c == '\u{2001}' || c == '\u{2002}' || c == '\u{2003}' || c == '\u{2004}'
        || c == '\u{2005}' || c == '\u{2006}' || c == '\u{2007}' || c == '\u{2008}'
        || c == '\u{2009}' || c == '\u{200A}' || c == '\u{2028}' || c == '\u{2029}'
        || c == '\u{202F}' || c == '\u{205F}' || c == '\u{3000}'
}

/// Removes surrounding whitespace from `s`.
pub fn trim(s: &str) -> (r: String)
    ensures
        r@ == spec_trim(s@),
{
    let len = s.unicode_len();
    let mut i: usize = 0;
    proof {
        assert(s@.skip(0) =~= s@);
    }
    while i < len && is_space(s.get_char(i))
        invariant
            i <= len,
            len == s@.len(),
            spec_trim_front(s@) == spec_trim_front(s@.skip(i as int)),
        decreases len - i,
    {
        proof {
            assert(s@.skip(i as int)[0] == s@[i as int]);
            assert(s@.skip(i as int).skip(1) =~= s@.skip(i as int + 1));
        }
        i = i + 1;
    }
    proof {
        if i < len {
            assert(s@.skip(i as int)[0] == s@[i as int]);
            assert(spec_trim_front(s@.skip(i as int)) == s@.skip(i as int));
        } else {
            assert(s@.skip(i as int) =~= Seq::<char>::empty());
            assert(spec_trim_front(s@) =~= s@.skip(i as int));
        }
    }
    let mut j: usize = len;
    while j > i && is_space(s.get_char(j - 1))
        invariant
            i <= j <= len,
            len == s@.len(),
            spec_trim_front(s@) == s@.skip(i as int),
            i < len ==> !is_space_char(s@[i as int]),
            spec_trim_back(s@.skip(i as int)) == spec_trim_back(
                s@.subrange(i as int, j as int),
            ),
        decreases j,
    {
        proof {
            let sub = s@.subrange(i as int, j as int);
            assert(sub[sub.len() - 1] == s@[j as int - 1]);
            assert(sub.take(sub.len() - 1) =~= s@.subrange(i as int, j as int - 1));
        }
        j = j - 1;
    }
    proof {
        let sub = s@.subrange(i as int, j as int);
        if j > i {
            assert(sub[sub.len() - 1] == s@[j as int - 1]);
            assert(spec_trim_back(sub) == sub);
        } else {
            assert(sub =~= Seq::<char>::empty());
            assert(spec_trim_back(sub) == sub);
        }
        assert(s@.skip(i as int) =~= s@.subrange(i as int, len as int));
    }
    let piece = s.substring_char(i, j);
    let mut r = String::new();
    r.append(piece);
    proof {
        assert(r@ =~= piece@);
    }
    r
}

/// Splits one raw header line at its first colon into a trimmed name and a
/// trimmed value; a line without a colon is malformed and yields nothing.
pub fn parse_header_line(line: &str) -> (r: Option<Header>)
    ensures
        r is Some <==> spec_parse_header_line(line@) is Some,
        r is Some ==> r->Some_0@ == spec_parse_header_line(line@)->Some_0,
{
    let len = line.unicode_len();
    let mut i: usize = 0;
    proof {
        assert(line@.skip(0) =~= line@);
    }
    while i < len && line.get_char(i) != ':'
        invariant
            i <= len,
            len == line@.len(),
            spec_find_colon(line@) == i + spec_find_colon(line@.skip(i as int)),
        decreases len - i,
    {
        proof {
            assert(line@.skip(i as int)[0] == line@[i as int]);
            assert(line@.skip(i as int).skip(1) =~= line@.skip(i as int + 1));
        }
        i = i + 1;
    }
    proof {
        if i < len {
            assert(line@.skip(i as int)[0] == line@[i as int]);
            assert(spec_find_colon(line@.skip(i as int)) == 0);
        } else {
            assert(line@.skip(i as int) =~= Seq::<char>::empty());
        }
        assert(spec_find_colon(line@) == i as int);
    }
    if i == len {
        None
    } else {
        let before = line.substring_char(0, i);
        let after = line.substring_char(i + 1, len);
        proof {
            assert(before@ =~= line@.take(i as int));
            assert(after@ =~= line@.skip(i as int + 1));
        }
        Some(Header { name: trim(before), value: trim(after) })
    }
}

/// Parses a whole block of raw header lines, keeping wire order and
/// duplicate names, and dropping only the lines that have no colon.
pub fn parse_headers(lines: &Vec<String>) -> (r: Vec<Header>)
    ensures
        spec_headers_views(r@) == spec_parse_headers(lines.deep_view()),
{
    let mut out: Vec<Header> = Vec::new();
    proof {
        assert(spec_headers_views(out@) =~= spec_parse_headers(lines.deep_view().take(0)));
    }
    let n = lines.len();
    let mut i: usize = 0;
    while i < n
        invariant
            i <= n,
            n == lines@.len(),
            lines.deep_view().len() == lines@.len(),
            forall|k: int|
                0 <= k < lines@.len() ==> lines.deep_view()[k] == lines@[k]@,
            spec_headers_views(out@) == spec_parse_headers(lines.deep_view().take(i as int)),
        decreases n - i,
    {
        let line = &lines[i];
        proof {
            let pref = lines.deep_view().take(i as int + 1);
            assert(pref.drop_last() =~= lines.deep_view().take(i as int));
            assert(pref.last() == line@);
        }
        match parse_header_line(line.as_str()) {
            Some(h) => {
                out.push(h);
                proof {
                    assert(spec_headers_views(out@) =~= spec_parse_headers(
                        lines.deep_view().take(i as int + 1),
                    ));
                }
            },
            None => {
                proof {
                    assert(spec_headers_views(out@) =~= spec_parse_headers(
                        lines.deep_view().take(i as int + 1),
                    ));
                }
            },
        }
        i = i + 1;
    }
    proof {
        assert(lines.deep_view().take(n as int) =~= lines.deep_view());
    }
    out
}

} // verus!
