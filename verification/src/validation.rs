//! Input validators.
//!
//! Pure predicate functions over strings: project name, network port, email
//! address, URL, and a file-name sanitizer.  Each validator's contract states
//! exactly which inputs it accepts and which error it reports otherwise.

use vstd::prelude::*;
use vstd::string::StrSliceExecFns;
use vstd::string::StringSliceAdditionalSpecFns;

use crate::strutil::blank;
use crate::strutil::find_first;
use crate::strutil::find_last;
use crate::strutil::find_char;
use crate::strutil::is_blank;
use crate::strutil::is_space;
use crate::strutil::push_char;
use crate::strutil::rfind_char;

verus! {

/// Whether a character is an ASCII letter.
pub open spec fn is_alpha(c: char) -> bool {
    let u = c as u32;
    (0x41 <= u && u <= 0x5A) || (0x61 <= u && u <= 0x7A)
}

/// Whether a character is an ASCII decimal digit.
pub open spec fn is_digit(c: char) -> bool {
    let u = c as u32;
    0x30 <= u && u <= 0x39
}

/// Whether a character may appear in a project name: ASCII letters, digits,
/// hyphens and underscores.
pub open spec fn is_name_char(c: char) -> bool {
    is_alpha(c) || is_digit(c) || c == '-' || c == '_'
}

/// Whether every character of the sequence may appear in a project name.
pub open spec fn all_name_chars(s: Seq<char>) -> bool {
    forall|i: int| 0 <= i < s.len() ==> is_name_char(#[trigger] s[i])
}

/// The byte length of a string slice, as `str::len` reports it.
pub open spec fn byte_len(s: &str) -> int {
    s.spec_bytes().len() as usize as int
}

/// Whether a project name is acceptable: not all whitespace, at most 50 bytes,
/// made of letters, digits, hyphens and underscores only, and not starting
/// with a hyphen.
pub open spec fn project_name_ok(s: Seq<char>, byte_length: int) -> bool {
    &&& !blank(s)
    &&& byte_length <= 50
    &&& s.len() > 0
    &&& all_name_chars(s)
    &&& s[0] != '-'
}

/// Checks a project name, reporting the first failing rule.
#[verifier::loop_isolation(false)]
pub fn validate_project_name(name: &str) -> (r: Result<(), String>)
    ensures
        r is Ok <==> project_name_ok(name@, byte_len(name)),
        r is Err ==> r->Err_0@ == (if blank(name@) {
            "project name cannot be empty"@
        } else if byte_len(name) > 50 {
            "project name is too long (max 50 characters)"@
        } else if !(name@.len() > 0 && all_name_chars(name@)) {
            "project name can only contain letters, numbers, hyphens, and underscores"@
        } else {
            "project name cannot start with a hyphen"@
        }),
{
    proof {
        reveal_strlit("project name cannot be empty");
        reveal_strlit("project name is too long (max 50 characters)");
        reveal_strlit("project name can only contain letters, numbers, hyphens, and underscores");
        reveal_strlit("project name cannot start with a hyphen");
    }
    if is_blank(name) {
        return Err("project name cannot be empty".to_owned());
    }
    if name.len() > 50 {
        return Err("project name is too long (max 50 characters)".to_owned());
    }
    let len = name.unicode_len();
    proof {
        if name@.len() == 0 {
            assert(blank(name@));
        }
    }
    let mut i: usize = 0;
    while i < len
        invariant
            len == name@.len(),
            i <= len,
            forall|j: int| 0 <= j < i ==> is_name_char(#[trigger] name@[j]),
        decreases len - i,
    {
        let c = name.get_char(i);
        let u = c as u32;
        let ok = (0x41 <= u && u <= 0x5A) || (0x61 <= u && u <= 0x7A) || (0x30 <= u && u <= 0x39)
            || c == '-' || c == '_';
        if !ok {
            return Err(
                "project name can only contain letters, numbers, hyphens, and underscores".to_owned(),
            );
        }
        i += 1;
    }
    if name.get_char(0) == '-' {
        return Err("project name cannot start with a hyphen".to_owned());
    }
    Ok(())
}

/// The numeric value written by a digit sequence, read in base ten; characters
/// outside the digit range make the result meaningless.
pub open spec fn digits_val(s: Seq<char>) -> int
    decreases s.len(),
{
    if s.len() == 0 {
        0
    } else {
        digits_val(s.drop_last()) * 10 + (s.last() as u32 - 0x30)
    }
}

/// The digit portion of a port string: an optional leading plus sign is
/// accepted, as `str::parse` does.
pub open spec fn port_digits(s: Seq<char>) -> Seq<char> {
    if s.len() > 0 && s[0] == '+' {
        s.skip(1)
    } else {
        s
    }
}

/// Whether a string parses as an unsigned 16-bit integer: an optional plus
/// sign, then one or more digits whose value fits in 16 bits.
pub open spec fn u16_parseable(s: Seq<char>) -> bool {
    let d = port_digits(s);
    &&& d.len() > 0
    &&& forall|i: int| 0 <= i < d.len() ==> is_digit(#[trigger] d[i])
    &&& digits_val(d) <= 0xFFFF
}

/// The value a parseable port string denotes.
pub open spec fn parsed_u16(s: Seq<char>) -> int {
    digits_val(port_digits(s))
}

/// A digit sequence's value is never negative.
proof fn lemma_digits_val_nonneg(s: Seq<char>)
    requires
        forall|i: int| 0 <= i < s.len() ==> is_digit(#[trigger] s[i]),
    ensures
        digits_val(s) >= 0,
    decreases s.len(),
{
    if s.len() > 0 {
        lemma_digits_val_nonneg(s.drop_last());
    }
}

/// Reading more digits never shrinks the value.
proof fn lemma_digits_val_mono(s: Seq<char>, k: int)
    requires
        0 <= k <= s.len(),
        forall|i: int| 0 <= i < s.len() ==> is_digit(#[trigger] s[i]),
    ensures
        digits_val(s) >= digits_val(s.take(k)),
    decreases s.len() - k,
{
    if k < s.len() {
        lemma_digits_val_mono(s, k + 1);
        assert(s.take(k + 1).drop_last() =~= s.take(k));
        assert(s.take(k + 1).last() == s[k]);
        lemma_digits_val_nonneg(s.take(k));
    } else {
        assert(s.take(k) =~= s);
    }
}

/// Parses an unsigned 16-bit integer, exactly as `str::parse::<u16>` would.
#[verifier::loop_isolation(false)]
pub fn parse_u16(s: &str) -> (r: Option<u16>)
    ensures
        r is Some <==> u16_parseable(s@),
        r is Some ==> r->0 == parsed_u16(s@),
{
    let len = s.unicode_len();
    let start: usize = if len > 0 && s.get_char(0) == '+' {
        1
    } else {
        0
    };
    let ghost d = port_digits(s@);
    proof {
        assert(d =~= s@.skip(start as int));
    }
    if len == start {
        return None;
    }
    let mut acc: u32 = 0;
    let mut i: usize = start;
    proof {
        assert(d.take(0) =~= Seq::<char>::empty());
    }
    while i < len
        invariant
            len == s@.len(),
            start <= i <= len,
            start <= 1,
            d == s@.skip(start as int),
            d.len() == len - start,
            forall|j: int| 0 <= j < i - start ==> is_digit(#[trigger] d[j]),
            acc <= 0xFFFF,
            acc == digits_val(d.take(i - start)),
        decreases len - i,
    {
        let c = s.get_char(i);
        let u = c as u32;
        proof {
            assert(d[i - start] == s@[i as int]);
        }
        if u < 0x30 || u > 0x39 {
            proof {
                assert(!is_digit(d[i - start]));
            }
            return None;
        }
        let ghost k = i - start;
        acc = acc * 10 + (u - 0x30);
        proof {
            assert(d.take(k + 1).drop_last() =~= d.take(k));
            assert(d.take(k + 1).last() == d[k]);
        }
        if acc > 0xFFFF {
            proof {
                if forall|j: int| 0 <= j < d.len() ==> is_digit(#[trigger] d[j]) {
                    lemma_digits_val_mono(d, k + 1);
                    assert(digits_val(d) > 0xFFFF);
                }
            }
            return None;
        }
        i += 1;
    }
    proof {
        assert(d.take(len - start) =~= d);
    }
    Some(acc as u16)
}

/// Checks a port string: it must parse as an unsigned 16-bit integer of at
/// least 1024.
pub fn validate_port(port_str: &str) -> (r: Result<u16, String>)
    ensures
        r is Ok <==> (u16_parseable(port_str@) && parsed_u16(port_str@) >= 1024),
        r is Ok ==> r->Ok_0 == parsed_u16(port_str@),
        r is Err ==> r->Err_0@ == (if u16_parseable(port_str@) {
            "port must be 1024 or higher"@
        } else {
            "port must be a valid number"@
        }),
{
    proof {
        reveal_strlit("port must be 1024 or higher");
        reveal_strlit("port must be a valid number");
    }
    match parse_u16(port_str) {
        Some(port) => {
            if port < 1024 {
                Err("port must be 1024 or higher".to_owned())
            } else {
                Ok(port)
            }
        },
        None => Err("port must be a valid number".to_owned()),
    }
}

/// Whether a character may appear in the local part of an email address.
pub open spec fn is_email_local_char(c: char) -> bool {
    is_alpha(c) || is_digit(c) || c == '.' || c == '_' || c == '%' || c == '+' || c == '-'
}

/// Whether a character may appear in the domain part of an email address.
pub open spec fn is_email_domain_char(c: char) -> bool {
    is_alpha(c) || is_digit(c) || c == '.' || c == '-'
}

/// Whether a string has the shape local@domain.tld: a non-empty local part,
/// an at sign, a non-empty domain, a dot, and a final label of at least two
/// letters.
pub open spec fn valid_email(s: Seq<char>) -> bool {
    let a = find_first(s, '@');
    let d = find_last(s, '.');
    &&& a >= 1
    &&& forall|i: int| 0 <= i < a ==> is_email_local_char(#[trigger] s[i])
    &&& d >= a + 2
    &&& forall|i: int| a < i < d ==> is_email_domain_char(#[trigger] s[i])
    &&& d + 3 <= s.len()
    &&& forall|i: int| d < i < s.len() ==> is_alpha(#[trigger] s[i])
}

/// Checks an email address; an all-whitespace address is accepted as "none".
#[verifier::loop_isolation(false)]
pub fn validate_email(email: &str) -> (r: Result<(), String>)
    ensures
        r is Ok <==> (blank(email@) || valid_email(email@)),
        r is Err ==> r->Err_0@ == "invalid email format"@,
{
    proof {
        reveal_strlit("invalid email format");
    }
    if is_blank(email) {
        return Ok(());
    }
    let len = email.unicode_len();
    let a = match find_char(email, '@') {
        Some(a) => a,
        None => {
            proof {
                crate::strutil::lemma_find_first(email@, '@');
            }
            return Err("invalid email format".to_owned());
        },
    };
    proof {
        crate::strutil::lemma_find_first(email@, '@');
    }
    if a == 0 {
        return Err("invalid email format".to_owned());
    }
    let mut i: usize = 0;
    while i < a
        invariant
            len == email@.len(),
            a < len,
            i <= a,
            find_first(email@, '@') == a as int,
            forall|j: int| 0 <= j < i ==> is_email_local_char(#[trigger] email@[j]),
        decreases a - i,
    {
        proof {
            crate::strutil::lemma_find_first(email@, '@');
        }
        let c = email.get_char(i);
        let u = c as u32;
        let ok = (0x41 <= u && u <= 0x5A) || (0x61 <= u && u <= 0x7A) || (0x30 <= u && u <= 0x39)
            || c == '.' || c == '_' || c == '%' || c == '+' || c == '-';
        if !ok {
            return Err("invalid email format".to_owned());
        }
        i += 1;
    }
    let d = match rfind_char(email, '.') {
        Some(d) => d,
        None => {
            proof {
                crate::strutil::lemma_find_last(email@, '.');
            }
            return Err("invalid email format".to_owned());
        },
    };
    proof {
        crate::strutil::lemma_find_last(email@, '.');
    }
    if d <= a || d - a < 2 {
        return Err("invalid email format".to_owned());
    }
    let mut i: usize = a + 1;
    while i < d
        invariant
            len == email@.len(),
            a + 2 <= d < len,
            a + 1 <= i <= d,
            forall|j: int| a < j < i ==> is_email_domain_char(#[trigger] email@[j]),
        decreases d - i,
    {
        let c = email.get_char(i);
        let u = c as u32;
        let ok = (0x41 <= u && u <= 0x5A) || (0x61 <= u && u <= 0x7A) || (0x30 <= u && u <= 0x39)
            || c == '.' || c == '-';
        if !ok {
            return Err("invalid email format".to_owned());
        }
        i += 1;
    }
    if len < 2 || d > len - 2 - 1 {
        return Err("invalid email format".to_owned());
    }
    let mut i: usize = d + 1;
    while i < len
        invariant
            len == email@.len(),
            d + 3 <= len,
            d + 1 <= i <= len,
            forall|j: int| d < j < i ==> is_alpha(#[trigger] email@[j]),
        decreases len - i,
    {
        let c = email.get_char(i);
        let u = c as u32;
        let ok = (0x41 <= u && u <= 0x5A) || (0x61 <= u && u <= 0x7A);
        if !ok {
            return Err("invalid email format".to_owned());
        }
        i += 1;
    }
    Ok(())
}

/// Whether a character may start a URL's host portion.
pub open spec fn is_url_first_char_ok(c: char) -> bool {
    !is_space(c) && c != '/' && c != '$' && c != '.' && c != '?' && c != '#'
}

/// Whether the URL body starting at position `p` (just past the scheme) is
/// acceptable: a safe first character, a second character that is not a line
/// break, and no whitespace afterwards.
pub open spec fn url_tail_ok(s: Seq<char>, p: int) -> bool {
    &&& s.len() >= p + 2
    &&& is_url_first_char_ok(s[p])
    &&& s[p + 1] != '\n'
    &&& forall|i: int| p + 2 <= i < s.len() ==> !is_space(#[trigger] s[i])
}

/// Whether a string is an acceptable URL: an http or https scheme followed by
/// an acceptable body.
pub open spec fn valid_url(s: Seq<char>) -> bool {
    ||| (s.take(7) == "http://"@ && url_tail_ok(s, 7))
    ||| (s.take(8) == "https://"@ && url_tail_ok(s, 8))
}

/// Checks a URL; an all-whitespace URL is accepted as "none".
#[verifier::loop_isolation(false)]
pub fn validate_url(url: &str) -> (r: Result<(), String>)
    ensures
        r is Ok <==> (blank(url@) || valid_url(url@)),
        r is Err ==> r->Err_0@ == "invalid url format (must start with http:// or https://)"@,
{
    proof {
        reveal_strlit("invalid url format (must start with http:// or https://)");
    }
    if is_blank(url) {
        return Ok(());
    }
    let len = url.unicode_len();
    let p: usize = if crate::strutil::matches_at(url, "https://", 0) {
        proof {
            reveal_strlit("http://");
            reveal_strlit("https://");
            assert(url@.take(8) =~= url@.subrange(0, 8));
            assert(url@.subrange(0, 7) =~= url@.take(7));
            // the two schemes cannot both match: character 4 differs
            assert(url@.take(7) != "http://"@) by {
                if url@.take(7) == "http://"@ {
                    assert(url@.take(7)[4] == url@[4]);
                    assert(url@.take(8)[4] == url@[4]);
                }
            }
        }
        8
    } else if crate::strutil::matches_at(url, "http://", 0) {
        proof {
            reveal_strlit("http://");
            reveal_strlit("https://");
            assert(url@.take(7) =~= url@.subrange(0, 7));
            if url@.len() >= 8 {
                assert(url@.subrange(0, 8) =~= url@.take(8));
            }
        }
        7
    } else {
        proof {
            reveal_strlit("http://");
            reveal_strlit("https://");
            if url@.len() >= 7 {
                assert(url@.subrange(0, 7) =~= url@.take(7));
            }
            if url@.len() >= 8 {
                assert(url@.subrange(0, 8) =~= url@.take(8));
            }
        }
        return Err("invalid url format (must start with http:// or https://)".to_owned());
    };
    proof {
        reveal_strlit("http://");
        reveal_strlit("https://");
    }
    if len < 2 || p > len - 2 {
        return Err("invalid url format (must start with http:// or https://)".to_owned());
    }
    let c0 = url.get_char(p);
    let ok0 = !is_space_char_local(c0) && c0 != '/' && c0 != '$' && c0 != '.' && c0 != '?' && c0
        != '#';
    if !ok0 {
        return Err("invalid url format (must start with http:// or https://)".to_owned());
    }
    if url.get_char(p + 1) == '\n' {
        return Err("invalid url format (must start with http:// or https://)".to_owned());
    }
    let mut i: usize = p + 2;
    while i < len
        invariant
            len == url@.len(),
            p + 2 <= i <= len,
            forall|j: int| p + 2 <= j < i ==> !is_space(#[trigger] url@[j]),
        decreases len - i,
    {
        if is_space_char_local(url.get_char(i)) {
            return Err("invalid url format (must start with http:// or https://)".to_owned());
        }
        i += 1;
    }
    Ok(())
}

/// Whether a character is Unicode whitespace.
fn is_space_char_local(c: char) -> (r: bool)
    ensures
        r == is_space(c),
{
    crate::strutil::is_space_char(c)
}

/// The file-name-safe form of one character: letters are lowercased, digits
/// and `-`, `_`, `.` stay, a space becomes a hyphen, anything else an
/// underscore.
pub open spec fn sanitize_char(c: char) -> char {
    let u = c as u32;
    if (0x61 <= u && u <= 0x7A) || (0x30 <= u && u <= 0x39) || c == '-' || c == '_' || c == '.' {
        c
    } else if 0x41 <= u && u <= 0x5A {
        ((u + 0x20) as u8) as char
    } else if c == ' ' {
        '-'
    } else {
        '_'
    }
}

/// The file-name-safe form of a string.
pub open spec fn sanitized(s: Seq<char>) -> Seq<char> {
    Seq::new(s.len(), |i: int| sanitize_char(s[i]))
}

/// Makes a string safe for use as a file name.
#[verifier::loop_isolation(false)]
pub fn sanitize_filename(input: &str) -> (r: String)
    ensures
        r@ == sanitized(input@),
{
    let len = input.unicode_len();
    let mut r = String::new();
    let mut i: usize = 0;
    while i < len
        invariant
            len == input@.len(),
            i <= len,
            r@ == sanitized(input@).take(i as int),
        decreases len - i,
    {
        let c = input.get_char(i);
        let u = c as u32;
        let out: char = if (0x61 <= u && u <= 0x7A) || (0x30 <= u && u <= 0x39) || c == '-' || c
            == '_' || c == '.' {
            c
        } else if 0x41 <= u && u <= 0x5A {
            ((u + 0x20) as u8) as char
        } else if c == ' ' {
            '-'
        } else {
            '_'
        };
        push_char(&mut r, out);
        i += 1;
        proof {
            assert(r@ =~= sanitized(input@).take(i as int));
        }
    }
    proof {
        assert(sanitized(input@).take(len as int) =~= sanitized(input@));
    }
    r
}

} // verus!
