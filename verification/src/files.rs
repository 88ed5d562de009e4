//! File-name utilities.
//!
//! Pure helpers: checking that a name is usable as a directory name on every
//! platform, and rendering a byte count in human-readable form.

use vstd::prelude::*;
use vstd::string::StrSliceExecFns;

use crate::strutil::blank;
use crate::strutil::concat_str;
use crate::strutil::dec_str;
use crate::strutil::is_blank;
use crate::strutil::push_char;
use crate::strutil::str_equal;
use crate::strutil::u64_to_dec;

verus! {

/// A character's ASCII uppercase form; anything but a lowercase ASCII letter
/// stays as it is.
pub open spec fn ascii_upper(c: char) -> char {
    let u = c as u32;
    if 0x61 <= u && u <= 0x7A {
        ((u - 0x20) as u8) as char
    } else {
        c
    }
}

/// A sequence with every character ASCII-uppercased.
pub open spec fn upper_seq(s: Seq<char>) -> Seq<char> {
    Seq::new(s.len(), |i: int| ascii_upper(s[i]))
}

/// Whether a name, compared without regard to ASCII case, is one of the
/// device names some platforms reserve.
pub open spec fn is_reserved_name(s: Seq<char>) -> bool {
    let up = upper_seq(s);
    ||| up == "CON"@
    ||| up == "PRN"@
    ||| up == "AUX"@
    ||| up == "NUL"@
    ||| up == "COM1"@
    ||| up == "COM2"@
    ||| up == "COM3"@
    ||| up == "COM4"@
    ||| up == "COM5"@
    ||| up == "COM6"@
    ||| up == "COM7"@
    ||| up == "COM8"@
    ||| up == "COM9"@
    ||| up == "LPT1"@
    ||| up == "LPT2"@
    ||| up == "LPT3"@
    ||| up == "LPT4"@
    ||| up == "LPT5"@
    ||| up == "LPT6"@
    ||| up == "LPT7"@
    ||| up == "LPT8"@
    ||| up == "LPT9"@
}

/// Whether a character cannot appear in a directory name.
pub open spec fn is_invalid_path_char(c: char) -> bool {
    c == '<' || c == '>' || c == ':' || c == '"' || c == '|' || c == '?' || c == '*' || c == '\0'
}

/// Whether a name works as a directory name: not all whitespace, not a
/// reserved device name, and free of the characters no platform accepts.
pub open spec fn directory_name_ok(s: Seq<char>) -> bool {
    &&& !blank(s)
    &&& !is_reserved_name(s)
    &&& forall|i: int| 0 <= i < s.len() ==> !is_invalid_path_char(#[trigger] s[i])
}

/// ASCII-uppercases a string.
fn to_ascii_upper(s: &str) -> (r: String)
    ensures
        r@ == upper_seq(s@),
{
    let len = s.unicode_len();
    let mut r = String::new();
    let mut i: usize = 0;
    while i < len
        invariant
            len == s@.len(),
            i <= len,
            r@ == upper_seq(s@).take(i as int),
        decreases len - i,
    {
        let c = s.get_char(i);
        let u = c as u32;
        let out: char = if 0x61 <= u && u <= 0x7A {
            ((u - 0x20) as u8) as char
        } else {
            c
        };
        push_char(&mut r, out);
        i += 1;
        proof {
            assert(r@ =~= upper_seq(s@).take(i as int));
        }
    }
    proof {
        assert(upper_seq(s@).take(len as int) =~= upper_seq(s@));
    }
    r
}

/// Checks whether a name works as a directory name.
#[verifier::loop_isolation(false)]
pub fn is_valid_directory_name(name: &str) -> (r: bool)
    ensures
        r == directory_name_ok(name@),
{
    if is_blank(name) {
        return false;
    }
    let up = to_ascii_upper(name);
    let reserved = str_equal(up.as_str(), "CON") || str_equal(up.as_str(), "PRN") || str_equal(
        up.as_str(),
        "AUX",
    ) || str_equal(up.as_str(), "NUL") || str_equal(up.as_str(), "COM1") || str_equal(
        up.as_str(),
        "COM2",
    ) || str_equal(up.as_str(), "COM3") || str_equal(up.as_str(), "COM4") || str_equal(
        up.as_str(),
        "COM5",
    ) || str_equal(up.as_str(), "COM6") || str_equal(up.as_str(), "COM7") || str_equal(
        up.as_str(),
        "COM8",
    ) || str_equal(up.as_str(), "COM9") || str_equal(up.as_str(), "LPT1") || str_equal(
        up.as_str(),
        "LPT2",
    ) || str_equal(up.as_str(), "LPT3") || str_equal(up.as_str(), "LPT4") || str_equal(
        up.as_str(),
        "LPT5",
    ) || str_equal(up.as_str(), "LPT6") || str_equal(up.as_str(), "LPT7") || str_equal(
        up.as_str(),
        "LPT8",
    ) || str_equal(up.as_str(), "LPT9");
    if reserved {
        return false;
    }
    let len = name.unicode_len();
    let mut i: usize = 0;
    while i < len
        invariant
            i <= len,
            forall|j: int| 0 <= j < i ==> !is_invalid_path_char(#[trigger] name@[j]),
        decreases len - i,
    {
        let c = name.get_char(i);
        if c == '<' || c == '>' || c == ':' || c == '"' || c == '|' || c == '?' || c == '*' || c
            == '\0' {
            return false;
        }
        i += 1;
    }
    true
}

/// The unit divisor for a byte count: each step of 1024 moves one unit up,
/// stopping at the largest named unit.
pub open spec fn size_unit(bytes: u64) -> int {
    if bytes < 0x100000 {
        0x400
    } else if bytes < 0x40000000 {
        0x100000
    } else if bytes < 0x10000000000 {
        0x40000000
    } else {
        0x10000000000
    }
}

/// The unit suffix that goes with `size_unit`.
pub open spec fn size_unit_name(bytes: u64) -> Seq<char> {
    if bytes < 0x100000 {
        " KB"@
    } else if bytes < 0x40000000 {
        " MB"@
    } else if bytes < 0x10000000000 {
        " GB"@
    } else {
        " TB"@
    }
}

/// A byte count in human-readable form: a plain count below 1 KB, otherwise
/// the amount in the largest fitting unit with one decimal, rounded to the
/// nearest tenth.
pub open spec fn file_size_str(bytes: u64) -> Seq<char> {
    if bytes < 1024 {
        dec_str(bytes as nat) + " B"@
    } else {
        let u = size_unit(bytes);
        let whole = bytes as int / u;
        let tenths = ((bytes as int % u) * 10 + u / 2) / u;
        if tenths == 10 {
            dec_str((whole + 1) as nat) + ".0"@ + size_unit_name(bytes)
        } else {
            dec_str(whole as nat) + "."@ + dec_str(tenths as nat) + size_unit_name(bytes)
        }
    }
}

/// Formats a byte count in human-readable form.
pub fn format_file_size(bytes: u64) -> (r: String)
    ensures
        r@ == file_size_str(bytes),
{
    if bytes < 1024 {
        let s = u64_to_dec(bytes);
        return concat_str(s.as_str(), " B");
    }
    let unit: u64 = if bytes < 0x100000 {
        0x400
    } else if bytes < 0x40000000 {
        0x100000
    } else if bytes < 0x10000000000 {
        0x40000000
    } else {
        0x10000000000
    };
    let name: &str = if bytes < 0x100000 {
        " KB"
    } else if bytes < 0x40000000 {
        " MB"
    } else if bytes < 0x10000000000 {
        " GB"
    } else {
        " TB"
    };
    let whole = bytes / unit;
    let tenths = ((bytes % unit) * 10 + unit / 2) / unit;
    if tenths == 10 {
        let s = u64_to_dec(whole + 1);
        let s = concat_str(s.as_str(), ".0");
        concat_str(s.as_str(), name)
    } else {
        let s = u64_to_dec(whole);
        let s = concat_str(s.as_str(), ".");
        let s = concat_str(s.as_str(), u64_to_dec(tenths).as_str());
        concat_str(s.as_str(), name)
    }
}

} // verus!
