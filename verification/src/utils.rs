//! Small helpers around the pipeline: formatting a diagnostic line for
//! the user, rendering numbers, and naming the executable a source file
//! compiles to.
use vstd::prelude::*;

use crate::lexer::{chars_of, string_from_ascii};

verus! {

broadcast use vstd::std_specs::vec::group_vec_axioms, vstd::seq::group_seq_axioms;

/// The decimal digit bytes of a nonnegative number.
pub open spec fn dec_bytes(n: int) -> Seq<u8>
    decreases n,
{
    if n <= 0 {
        Seq::empty()
    } else {
        dec_bytes(n / 10).push((48 + (n % 10)) as u8)
    }
}

/// The decimal spelling of a nonnegative number.
pub open spec fn spec_dec(n: int) -> Seq<char> {
    if n == 0 {
        chars_of(seq![48u8])
    } else {
        chars_of(dec_bytes(n))
    }
}

/// Renders a number in decimal.
pub fn usize_to_string(n: usize) -> (r: String)
    ensures
        r@ == spec_dec(n as int),
{
    if n == 0 {
        let mut digits: Vec<u8> = Vec::new();
        digits.push(48);
        proof {
            assert(digits@ =~= seq![48u8]);
        }
        return string_from_ascii(digits);
    }
    let mut digits: Vec<u8> = Vec::new();
    let mut m: usize = n;
    while m > 0
        invariant
            0 <= m <= n,
            dec_bytes(n as int) =~= dec_bytes(m as int) + digits@,
            forall|i: int| 0 <= i < digits@.len() ==> 48 <= #[trigger] digits@[i] <= 57,
        decreases m,
    {
        let d: u8 = (m % 10) as u8;
        let c: u8 = 48 + d;
        let ghost pre = digits@;
        digits.insert(0, c);
        proof {
            assert(digits@ =~= seq![c] + pre);
            assert(dec_bytes(m as int) =~= dec_bytes(m as int / 10).push(c));
            assert(dec_bytes(m as int / 10) + digits@ =~= dec_bytes(m as int) + pre);
        }
        m = m / 10;
    }
    proof {
        assert(dec_bytes(n as int) =~= digits@);
    }
    string_from_ascii(digits)
}

/// The characters after the last path separator: the file-name component
/// of a path. A path with nothing after its last separator has no name.
pub open spec fn suffix_after_slash(s: Seq<char>) -> Seq<char>
    decreases s.len(),
{
    if s.len() == 0 {
        s
    } else if s.last() == '/' {
        Seq::empty()
    } else {
        suffix_after_slash(s.drop_last()).push(s.last())
    }
}

/// The name a diagnostic shows for a path: its file-name component, or a
/// placeholder where the path has none.
pub open spec fn spec_display_name(path: Seq<char>) -> Seq<char> {
    if suffix_after_slash(path).len() == 0 {
        "<unknown>"@
    } else {
        suffix_after_slash(path)
    }
}

/// A cut right after the last separator marks off exactly the suffix the
/// recursive definition names.
proof fn lemma_suffix_after_slash(s: Seq<char>, cut: int)
    requires
        0 <= cut <= s.len(),
        forall|k: int| cut <= k < s.len() ==> s[k] != '/',
        cut > 0 ==> s[cut - 1] == '/',
    ensures
        suffix_after_slash(s) == s.subrange(cut, s.len() as int),
    decreases s.len(),
{
    if cut == s.len() {
        if s.len() > 0 {
            assert(s.last() == '/');
        }
        assert(s.subrange(cut, s.len() as int) =~= Seq::<char>::empty());
        assert(suffix_after_slash(s) =~= Seq::<char>::empty());
    } else {
        assert(s.last() != '/');
        lemma_suffix_after_slash(s.drop_last(), cut);
        assert(s.drop_last().subrange(cut, s.len() - 1) =~= s.subrange(cut, s.len() - 1));
        assert(s.subrange(cut, s.len() - 1).push(s.last()) =~= s.subrange(cut, s.len() as int));
    }
}

/// The file-name component a diagnostic shows for a path.
pub fn display_name(path: &str) -> (r: String)
    ensures
        r@ == spec_display_name(path@),
{
    let n = path.unicode_len();
    let mut cut: usize = 0;
    let mut i: usize = 0;
    while i < n
        invariant
            0 <= cut <= i <= n,
            n == path@.len(),
            forall|k: int| cut <= k < i ==> path@[k] != '/',
            cut > 0 ==> path@[cut - 1] == '/',
        decreases n - i,
    {
        if path.get_char(i) == '/' {
            cut = i + 1;
        }
        i = i + 1;
    }
    proof {
        lemma_suffix_after_slash(path@, cut as int);
    }
    if cut == n {
        let r = String::from_str("<unknown>");
        proof {
            assert(path@.subrange(n as int, n as int) =~= Seq::<char>::empty());
        }
        r
    } else {
        let tail = path.substring_char(cut, n);
        String::from_str(tail)
    }
}

/// The formatted diagnostic for a message and an optional location:
/// `error: <message>`, with ` in <file> (<line>:<col>)`, ` in <file>
/// (line <line>)` or ` in <file>` appended as far as the location is
/// known. The file argument may be a whole path: only its file-name
/// component is shown, with a placeholder where the path has none.
pub open spec fn spec_format_error(
    message: Seq<char>,
    file: Option<Seq<char>>,
    line: Option<int>,
    column: Option<int>,
) -> Seq<char> {
    match file {
        None => "error: "@ + message,
        Some(path) => {
            let f = spec_display_name(path);
            match line {
                None => "error: "@ + message + " in "@ + f,
                Some(l) => match column {
                    None => "error: "@ + message + " in "@ + f + " (line "@ + spec_dec(l) + ")"@,
                    Some(c) => "error: "@ + message + " in "@ + f + " ("@ + spec_dec(l) + ":"@
                        + spec_dec(c) + ")"@,
                },
            }
        },
    }
}

/// Creates the single diagnostic line reported to the user for a failure.
pub fn format_error(message: &str, file: Option<&str>, line: Option<usize>, column: Option<usize>)
    -> (r: String)
    ensures
        r@ == spec_format_error(
            message@,
            match file {
                Some(f) => Some(f@),
                None => None,
            },
            match line {
                Some(l) => Some(l as int),
                None => None,
            },
            match column {
                Some(c) => Some(c as int),
                None => None,
            },
        ),
{
    let mut r = String::from_str("error: ");
    r.append(message);
    match file {
        None => r,
        Some(f) => {
            r.append(" in ");
            let shown = display_name(f);
            r.append(shown.as_str());
            match line {
                None => r,
                Some(l) => {
                    match column {
                        None => {
                            r.append(" (line ");
                            let ls = usize_to_string(l);
                            r.append(ls.as_str());
                            r.append(")");
                            r
                        },
                        Some(c) => {
                            r.append(" (");
                            let ls = usize_to_string(l);
                            r.append(ls.as_str());
                            r.append(":");
                            let cs = usize_to_string(c);
                            r.append(cs.as_str());
                            r.append(")");
                            r
                        },
                    }
                },
            }
        },
    }
}

/// Whether a file name ends in `.c`: what the pipeline accepts.
pub open spec fn spec_is_c_file(name: Seq<char>) -> bool {
    name.len() >= 2 && name.subrange(name.len() - 2, name.len() as int) == ".c"@
}

pub fn is_c_file_name(name: &str) -> (r: bool)
    ensures
        r == spec_is_c_file(name@),
{
    let n = name.unicode_len();
    if n < 2 {
        proof {
            reveal_strlit(".c");
        }
        return false;
    }
    let tail = name.substring_char(n - 2, n);
    let t = String::from_str(tail);
    let suffix = String::from_str(".c");
    t.eq(&suffix)
}

/// The executable path a source path compiles to: the `.c` suffix is
/// removed (the platform's executable naming for Unix-like targets).
pub open spec fn spec_executable_path(source: Seq<char>) -> Seq<char> {
    if spec_is_c_file(source) {
        source.subrange(0, source.len() - 2)
    } else {
        source
    }
}

/// Whether a directory name marks a hidden directory, which a source
/// search skips.
pub open spec fn spec_is_hidden_name(name: Seq<char>) -> bool {
    name.len() > 0 && name[0] == '.'
}

pub fn is_hidden_dir_name(name: &str) -> (r: bool)
    ensures
        r == spec_is_hidden_name(name@),
{
    let n = name.unicode_len();
    if n == 0 {
        false
    } else {
        name.get_char(0) == '.'
    }
}

pub fn executable_output_path(source: &str) -> (r: String)
    ensures
        r@ == spec_executable_path(source@),
{
    if is_c_file_name(source) {
        let n = source.unicode_len();
        let stem = source.substring_char(0, n - 2);
        String::from_str(stem)
    } else {
        String::from_str(source)
    }
}

} // verus!
