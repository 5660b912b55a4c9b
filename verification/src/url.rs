//! Syntax of absolute URLs.
//!
//! A text is accepted when it follows the generic URL syntax with an
//! authority part:
//!
//! ```text
//! url       = scheme "://" authority path [ "?" query ] [ "#" fragment ]
//! scheme    = ALPHA *( ALPHA / DIGIT / "+" / "-" / "." )
//! authority = [ userinfo "@" ] host [ ":" port ]
//! userinfo  = *( name-char / ":" )
//! host      = 1*name-char / "[" 1*( HEXDIG / ":" / "." ) "]"
//! port      = *DIGIT
//! path      = *( "/" / name-char / ":" / "@" )       ; empty or starting with "/"
//! query     = *( "/" / "?" / name-char / ":" / "@" )
//! fragment  = *( "/" / "?" / name-char / ":" / "@" )
//! name-char = ALPHA / DIGIT / "-" / "." / "_" / "~" / "%"
//!           / "!" / "$" / "&" / "'" / "(" / ")" / "*" / "+" / "," / ";" / "="
//! ```
//!
//! and every `%` is followed, inside its component, by two hexadecimal
//! digits. An address literal in brackets is checked for its characters only.
//! Nothing is looked up: whether the host exists is not part of the syntax.

use vstd::prelude::*;

verus! {

/// The character classes of the grammar.
#[derive(Clone, Copy, Debug, PartialEq, Eq)]
pub enum CharClass {
    /// What a scheme is made of.
    Scheme,
    /// `name-char`: what a registered host name is made of.
    Name,
    /// What user information is made of.
    UserInfo,
    /// What a path is made of, the slashes between its segments included.
    Path,
    /// What a query and a fragment are made of.
    Query,
    /// What stands between the brackets of an address literal.
    Literal,
    /// What a port is made of.
    Digit,
    /// Every character that can stand anywhere in an authority.
    Authority,
}

pub open spec fn is_alpha(c: char) -> bool {
    ('a' <= c && c <= 'z') || ('A' <= c && c <= 'Z')
}

pub open spec fn is_digit(c: char) -> bool {
    '0' <= c && c <= '9'
}

pub open spec fn is_hex(c: char) -> bool {
    is_digit(c) || ('a' <= c && c <= 'f') || ('A' <= c && c <= 'F')
}

pub open spec fn is_unreserved(c: char) -> bool {
    is_alpha(c) || is_digit(c) || c == '-' || c == '.' || c == '_' || c == '~'
}

pub open spec fn is_sub_delim(c: char) -> bool {
    c == '!' || c == '$' || c == '&' || c == '\'' || c == '(' || c == ')' || c == '*' || c == '+'
        || c == ',' || c == ';' || c == '='
}

impl CharClass {
    /// Whether `c` belongs to this class.
    pub open spec fn admits(self, c: char) -> bool {
        match self {
            CharClass::Scheme => is_alpha(c) || is_digit(c) || c == '+' || c == '-' || c == '.',
            CharClass::Name => is_unreserved(c) || is_sub_delim(c) || c == '%',
            CharClass::UserInfo => is_unreserved(c) || is_sub_delim(c) || c == '%' || c == ':',
            CharClass::Path => is_unreserved(c) || is_sub_delim(c) || c == '%' || c == ':' || c
                == '@' || c == '/',
            CharClass::Query => is_unreserved(c) || is_sub_delim(c) || c == '%' || c == ':' || c
                == '@' || c == '/' || c == '?',
            CharClass::Literal => is_hex(c) || c == ':' || c == '.',
            CharClass::Digit => is_digit(c),
            CharClass::Authority => is_unreserved(c) || is_sub_delim(c) || c == '%' || c == ':'
                || c == '@' || c == '[' || c == ']',
        }
    }

    /// Whether the character that the ASCII byte `b` stands for belongs to this class.
    pub fn holds(self, b: u8) -> (r: bool)
        ensures
            r == self.admits(b as char),
    {
        let c = b as char;
        let alpha = (c >= 'a' && c <= 'z') || (c >= 'A' && c <= 'Z');
        let digit = c >= '0' && c <= '9';
        let name = alpha || digit || c == '-' || c == '.' || c == '_' || c == '~' || c == '!' || c
            == '$' || c == '&' || c == '\'' || c == '(' || c == ')' || c == '*' || c == '+' || c
            == ',' || c == ';' || c == '=' || c == '%';
        match self {
            CharClass::Scheme => alpha || digit || c == '+' || c == '-' || c == '.',
            CharClass::Name => name,
            CharClass::UserInfo => name || c == ':',
            CharClass::Path => name || c == ':' || c == '@' || c == '/',
            CharClass::Query => name || c == ':' || c == '@' || c == '/' || c == '?',
            CharClass::Literal => digit || (c >= 'a' && c <= 'f') || (c >= 'A' && c <= 'F') || c
                == ':' || c == '.',
            CharClass::Digit => digit,
            CharClass::Authority => name || c == ':' || c == '@' || c == '[' || c == ']',
        }
    }
}

/// The character at `i` belongs to `class`, and where it is a `%`, two
/// hexadecimal digits follow it within `s`.
pub open spec fn char_ok(s: Seq<char>, class: CharClass, i: int) -> bool {
    &&& class.admits(s[i])
    &&& s[i] == '%' ==> i + 2 < s.len() && is_hex(s[i + 1]) && is_hex(s[i + 2])
}

/// `s` is a run of characters of `class` in which every escape is complete.
pub open spec fn is_run(s: Seq<char>, class: CharClass) -> bool {
    forall|i: int| 0 <= i < s.len() ==> #[trigger] char_ok(s, class, i)
}

pub open spec fn is_scheme(s: Seq<char>) -> bool {
    s.len() > 0 && is_alpha(s[0]) && is_run(s, CharClass::Scheme)
}

pub open spec fn is_host(s: Seq<char>) -> bool {
    ||| s.len() > 0 && is_run(s, CharClass::Name)
    ||| s.len() > 2 && s[0] == '[' && s[s.len() - 1] == ']' && is_run(
        s.subrange(1, s.len() - 1),
        CharClass::Literal,
    )
}

/// `s` is a host, a colon at `k`, and a port.
pub open spec fn host_port_at(s: Seq<char>, k: int) -> bool {
    &&& 0 <= k < s.len()
    &&& s[k] == ':'
    &&& is_host(s.subrange(0, k))
    &&& is_run(s.subrange(k + 1, s.len() as int), CharClass::Digit)
}

pub open spec fn is_host_port(s: Seq<char>) -> bool {
    is_host(s) || exists|k: int| #[trigger] host_port_at(s, k)
}

/// `s` is user information, an `@` at `k`, and a host with an optional port.
pub open spec fn user_host_at(s: Seq<char>, k: int) -> bool {
    &&& 0 <= k < s.len()
    &&& s[k] == '@'
    &&& is_run(s.subrange(0, k), CharClass::UserInfo)
    &&& is_host_port(s.subrange(k + 1, s.len() as int))
}

pub open spec fn is_authority(s: Seq<char>) -> bool {
    is_host_port(s) || exists|k: int| #[trigger] user_host_at(s, k)
}

/// `s` is a path that ends at `q`, a query that ends at `f`, and a fragment.
pub open spec fn tail_at(s: Seq<char>, q: int, f: int) -> bool {
    &&& 0 <= q <= f <= s.len()
    &&& q > 0 ==> s[0] == '/'
    &&& is_run(s.subrange(0, q), CharClass::Path)
    &&& q < f ==> s[q] == '?' && is_run(s.subrange(q + 1, f), CharClass::Query)
    &&& f < s.len() ==> s[f] == '#' && is_run(
        s.subrange(f + 1, s.len() as int),
        CharClass::Query,
    )
}

pub open spec fn is_tail(s: Seq<char>) -> bool {
    exists|q: int, f: int| #[trigger] tail_at(s, q, f)
}

/// `s` is a scheme that ends at `c`, `://`, an authority that ends at `e`,
/// and a path with optional query and fragment.
pub open spec fn url_at(s: Seq<char>, c: int, e: int) -> bool {
    &&& 0 < c
    &&& c + 3 <= e <= s.len()
    &&& is_scheme(s.subrange(0, c))
    &&& s[c] == ':'
    &&& s[c + 1] == '/'
    &&& s[c + 2] == '/'
    &&& is_authority(s.subrange(c + 3, e))
    &&& is_tail(s.subrange(e, s.len() as int))
}

/// `s` is a well-formed absolute URL.
pub open spec fn well_formed_url(s: Seq<char>) -> bool {
    exists|c: int, e: int| #[trigger] url_at(s, c, e)
}

/// The characters that a sequence of ASCII bytes stands for.
pub open spec fn chars_of(b: Seq<u8>) -> Seq<char> {
    Seq::new(b.len(), |i: int| b[i] as char)
}

fn hex(b: u8) -> (r: bool)
    ensures
        r == is_hex(b as char),
{
    let c = b as char;
    (c >= '0' && c <= '9') || (c >= 'a' && c <= 'f') || (c >= 'A' && c <= 'F')
}

fn alpha(b: u8) -> (r: bool)
    ensures
        r == is_alpha(b as char),
{
    let c = b as char;
    (c >= 'a' && c <= 'z') || (c >= 'A' && c <= 'Z')
}

/// The first position in `from..to` whose character is outside `class`, or `to`.
fn skip(b: &[u8], from: usize, to: usize, class: CharClass) -> (r: usize)
    requires
        from <= to <= b.len(),
    ensures
        from <= r <= to,
        forall|j: int| from <= j < r ==> class.admits(#[trigger] chars_of(b@)[j]),
        r < to ==> !class.admits(chars_of(b@)[r as int]),
{
    let mut i: usize = from;
    while i < to && class.holds(b[i])
        invariant
            from <= i <= to <= b.len(),
            forall|j: int| from <= j < i ==> class.admits(#[trigger] chars_of(b@)[j]),
        decreases to - i,
    {
        i += 1;
    }
    i
}

/// The first position in `from..to` from which every character up to `to`
/// belongs to `class`.
fn skip_back(b: &[u8], from: usize, to: usize, class: CharClass) -> (r: usize)
    requires
        from <= to <= b.len(),
    ensures
        from <= r <= to,
        forall|j: int| r <= j < to ==> class.admits(#[trigger] chars_of(b@)[j]),
        from < r ==> !class.admits(chars_of(b@)[r - 1]),
{
    let mut i: usize = to;
    while i > from && class.holds(b[i - 1])
        invariant
            from <= i <= to <= b.len(),
            forall|j: int| i <= j < to ==> class.admits(#[trigger] chars_of(b@)[j]),
        decreases i - from,
    {
        i -= 1;
    }
    i
}

/// Whether `from..to` is a run of `class` with complete escapes.
fn run_ok(b: &[u8], from: usize, to: usize, class: CharClass) -> (r: bool)
    requires
        from <= to <= b.len(),
    ensures
        r == is_run(chars_of(b@).subrange(from as int, to as int), class),
{
    let ghost s = chars_of(b@).subrange(from as int, to as int);
    let mut i: usize = from;
    while i < to
        invariant
            from <= i <= to <= b.len(),
            s == chars_of(b@).subrange(from as int, to as int),
            forall|j: int| 0 <= j < i - from ==> #[trigger] char_ok(s, class, j),
        decreases to - i,
    {
        let x = b[i];
        if !class.holds(x) {
            assert(!char_ok(s, class, i - from));
            return false;
        }
        if x as char == '%' {
            if to - i < 3 || !hex(b[i + 1]) || !hex(b[i + 2]) {
                assert(!char_ok(s, class, i - from));
                return false;
            }
        }
        assert(char_ok(s, class, i - from));
        i += 1;
    }
    true
}

/// Whether `from..to` is a host.
fn host_ok(b: &[u8], from: usize, to: usize) -> (r: bool)
    requires
        from <= to <= b.len(),
    ensures
        r == is_host(chars_of(b@).subrange(from as int, to as int)),
{
    let ghost s = chars_of(b@).subrange(from as int, to as int);
    if from < to && run_ok(b, from, to, CharClass::Name) {
        return true;
    }
    if to - from > 2 && b[from] as char == '[' && b[to - 1] as char == ']' {
        assert(s.subrange(1, s.len() - 1) =~= chars_of(b@).subrange(from + 1, to - 1));
        run_ok(b, from + 1, to - 1, CharClass::Literal)
    } else {
        false
    }
}

/// Whether `from..to` is a host with an optional port.
fn host_port_ok(b: &[u8], from: usize, to: usize) -> (r: bool)
    requires
        from <= to <= b.len(),
    ensures
        r == is_host_port(chars_of(b@).subrange(from as int, to as int)),
{
    let ghost s = chars_of(b@).subrange(from as int, to as int);
    if host_ok(b, from, to) {
        return true;
    }
    let p = skip_back(b, from, to, CharClass::Digit);
    proof {
        // the colon before a port is the character just before the trailing digits
        assert forall|k: int| #[trigger] host_port_at(s, k) implies k == p - from - 1 by {
            let port = s.subrange(k + 1, s.len() as int);
            if k + 1 < p - from {
                assert(char_ok(port, CharClass::Digit, p - from - 1 - (k + 1)));
            }
        }
    }
    if p == from || b[p - 1] as char != ':' {
        return false;
    }
    let ghost port = s.subrange(p - from, s.len() as int);
    assert(port =~= chars_of(b@).subrange(p as int, to as int));
    assert(is_run(port, CharClass::Digit)) by {
        assert forall|i: int| 0 <= i < port.len() implies #[trigger] char_ok(
            port,
            CharClass::Digit,
            i,
        ) by {
            assert(port[i] == chars_of(b@)[p + i]);
        }
    }
    assert(s.subrange(0, p - from - 1) =~= chars_of(b@).subrange(from as int, p - 1));
    let r = host_ok(b, from, p - 1);
    proof {
        if r {
            assert(host_port_at(s, p - from - 1));
        }
    }
    r
}

/// No character of a host with an optional port is an `@`, and each belongs
/// to the class `Authority`.
proof fn lemma_host_port_chars(s: Seq<char>, i: int)
    requires
        is_host_port(s),
        0 <= i < s.len(),
    ensures
        s[i] != '@',
        CharClass::Authority.admits(s[i]),
{
    let k = if is_host(s) {
        s.len() as int
    } else {
        choose|k: int| #[trigger] host_port_at(s, k)
    };
    let host = s.subrange(0, k);
    if is_host(s) {
        assert(host =~= s);
    }
    if i < k {
        assert(host[i] == s[i]);
        if is_run(host, CharClass::Name) {
            assert(char_ok(host, CharClass::Name, i));
        } else if 0 < i < k - 1 {
            let inner = host.subrange(1, host.len() - 1);
            assert(char_ok(inner, CharClass::Literal, i - 1));
        }
    } else if i > k {
        let port = s.subrange(k + 1, s.len() as int);
        assert(char_ok(port, CharClass::Digit, i - k - 1));
    }
}

/// Whether `from..to` is an authority.
fn authority_ok(b: &[u8], from: usize, to: usize) -> (r: bool)
    requires
        from <= to <= b.len(),
    ensures
        r == is_authority(chars_of(b@).subrange(from as int, to as int)),
{
    let ghost s = chars_of(b@).subrange(from as int, to as int);
    let k = skip(b, from, to, CharClass::UserInfo);
    proof {
        // the `@` after user information is the first character outside that class
        assert forall|j: int| #[trigger] user_host_at(s, j) implies j == k - from by {
            let user = s.subrange(0, j);
            if k - from < j {
                assert(char_ok(user, CharClass::UserInfo, k - from));
            }
        }
    }
    if k < to && b[k] as char == '@' {
        proof {
            if is_host_port(s) {
                lemma_host_port_chars(s, k - from);
            }
        }
        assert(s.subrange(0, k - from) =~= chars_of(b@).subrange(from as int, k as int));
        assert(s.subrange(k - from + 1, s.len() as int) =~= chars_of(b@).subrange(
            k + 1,
            to as int,
        ));
        let r = run_ok(b, from, k, CharClass::UserInfo) && host_port_ok(b, k + 1, to);
        proof {
            if r {
                assert(user_host_at(s, k - from));
            }
        }
        r
    } else {
        host_port_ok(b, from, to)
    }
}

/// Whether `from..to` is a path with an optional query and an optional fragment.
fn tail_ok(b: &[u8], from: usize, to: usize) -> (r: bool)
    requires
        from <= to <= b.len(),
    ensures
        r == is_tail(chars_of(b@).subrange(from as int, to as int)),
{
    let ghost s = chars_of(b@).subrange(from as int, to as int);
    let q = skip(b, from, to, CharClass::Path);
    let f = if q < to && b[q] as char == '?' {
        skip(b, q + 1, to, CharClass::Query)
    } else {
        q
    };
    proof {
        // the path ends at the first character outside its class, and the
        // query, where there is one, at the first outside its own
        assert forall|q1: int, f1: int| #[trigger] tail_at(s, q1, f1) implies q1 == q - from && f1
            == f - from by {
            let path = s.subrange(0, q1);
            if q - from < q1 {
                assert(char_ok(path, CharClass::Path, q - from));
            }
            if q1 < f1 {
                let query = s.subrange(q1 + 1, f1);
                if f - from < f1 {
                    assert(char_ok(query, CharClass::Query, f - from - q1 - 1));
                }
            }
        }
        assert(s.subrange(0, q - from) =~= chars_of(b@).subrange(from as int, q as int));
        if q < f {
            assert(s.subrange(q - from + 1, f - from) =~= chars_of(b@).subrange(q + 1, f as int));
        }
        if f < to {
            assert(s.subrange(f - from + 1, s.len() as int) =~= chars_of(b@).subrange(
                f + 1,
                to as int,
            ));
        }
    }
    if q > from && b[from] as char != '/' {
        return false;
    }
    if !run_ok(b, from, q, CharClass::Path) {
        return false;
    }
    if q < f && !run_ok(b, q + 1, f, CharClass::Query) {
        return false;
    }
    if f < to {
        if b[f] as char != '#' {
            return false;
        }
        if !run_ok(b, f + 1, to, CharClass::Query) {
            return false;
        }
    }
    assert(tail_at(s, q - from, f - from));
    true
}

/// Each character of an authority belongs to the class `Authority`.
proof fn lemma_authority_chars(s: Seq<char>, i: int)
    requires
        is_authority(s),
        0 <= i < s.len(),
    ensures
        CharClass::Authority.admits(s[i]),
{
    if is_host_port(s) {
        lemma_host_port_chars(s, i);
    } else {
        let k = choose|k: int| #[trigger] user_host_at(s, k);
        if i < k {
            assert(char_ok(s.subrange(0, k), CharClass::UserInfo, i));
        } else if i > k {
            lemma_host_port_chars(s.subrange(k + 1, s.len() as int), i - k - 1);
        }
    }
}

/// Each character of a tail is a `#` or belongs to the class `Query`, and the
/// first one, where there is one, is `/`, `?` or `#`.
proof fn lemma_tail_chars(s: Seq<char>, i: int)
    requires
        is_tail(s),
        0 <= i < s.len(),
    ensures
        CharClass::Query.admits(s[i]) || s[i] == '#',
        s[0] == '/' || s[0] == '?' || s[0] == '#',
{
    let (q, f) = choose|q: int, f: int| #[trigger] tail_at(s, q, f);
    if i < q {
        assert(char_ok(s.subrange(0, q), CharClass::Path, i));
    } else if q < i < f {
        assert(char_ok(s.subrange(q + 1, f), CharClass::Query, i - q - 1));
    } else if i > f {
        assert(char_ok(s.subrange(f + 1, s.len() as int), CharClass::Query, i - f - 1));
    }
}

/// A well-formed URL holds ASCII characters only.
pub proof fn lemma_url_is_ascii(s: Seq<char>)
    requires
        well_formed_url(s),
    ensures
        vstd::utf8::is_ascii_chars(s),
{
    let (c, e) = choose|c: int, e: int| #[trigger] url_at(s, c, e);
    assert forall|i: int| 0 <= i < s.len() implies '\0' <= #[trigger] s[i] <= '\u{7f}' by {
        if i < c {
            assert(char_ok(s.subrange(0, c), CharClass::Scheme, i));
        } else if c + 3 <= i < e {
            lemma_authority_chars(s.subrange(c + 3, e), i - c - 3);
        } else if e <= i {
            lemma_tail_chars(s.subrange(e, s.len() as int), i - e);
        }
    }
}

/// Whether the ASCII bytes `b` spell a well-formed absolute URL.
fn url_ok(b: &[u8]) -> (r: bool)
    ensures
        r == well_formed_url(chars_of(b@)),
{
    let ghost s = chars_of(b@);
    let n = b.len();
    let c = skip(b, 0, n, CharClass::Scheme);
    proof {
        // the scheme ends at the first character outside its class
        assert forall|c1: int, e1: int| #[trigger] url_at(s, c1, e1) implies c1 == c by {
            if c < c1 {
                assert(char_ok(s.subrange(0, c1), CharClass::Scheme, c as int));
            }
        }
    }
    if c == 0 || n - c < 3 {
        return false;
    }
    if !alpha(b[0]) || b[c] as char != ':' || b[c + 1] as char != '/' || b[c + 2] as char != '/' {
        return false;
    }
    let e = skip(b, c + 3, n, CharClass::Authority);
    proof {
        // the authority ends at the first character outside its class
        assert forall|c1: int, e1: int| #[trigger] url_at(s, c1, e1) implies e1 == e by {
            if e < e1 {
                lemma_authority_chars(s.subrange(c + 3, e1), e - c - 3);
            }
            if e1 < e {
                lemma_tail_chars(s.subrange(e1, s.len() as int), 0);
            }
        }
        assert(s.subrange(c + 3, e as int) =~= chars_of(b@).subrange(c + 3, e as int));
        assert(s.subrange(e as int, s.len() as int) =~= chars_of(b@).subrange(e as int, n as int));
    }
    let r = authority_ok(b, c + 3, e) && tail_ok(b, e, n);
    proof {
        if r {
            let scheme = s.subrange(0, c as int);
            assert forall|i: int| 0 <= i < scheme.len() implies #[trigger] char_ok(
                scheme,
                CharClass::Scheme,
                i,
            ) by {
                assert(scheme[i] == chars_of(b@)[i]);
            }
            assert(url_at(s, c as int, e as int));
        }
    }
    r
}

/// Whether `text` is a well-formed absolute URL.
pub fn is_valid_url(text: &str) -> (r: bool)
    ensures
        r == well_formed_url(text@),
{
    if !text.is_ascii() {
        proof {
            if well_formed_url(text@) {
                lemma_url_is_ascii(text@);
            }
        }
        return false;
    }
    let b = text.as_bytes();
    proof {
        vstd::string::is_ascii_spec_bytes(text);
        assert(chars_of(b@) =~= text@);
    }
    url_ok(b)
}

} // verus!
