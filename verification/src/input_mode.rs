//! How the command gets at its input file, and how that choice is parsed.
use vstd::prelude::*;

verus! {

/// How the command gets at its input.
#[derive(Debug, PartialEq, Eq, Structural, Clone, Copy)]
pub enum InputMode {
    /// The contents of the input file are sent to standard input.
    Stdin,
    /// The name of the input file is substituted into the command text.
    Filename,
}

/// `c` with an ASCII capital letter folded to its small form; any other
/// character is left as it is.
pub open spec fn fold_char(c: char) -> char {
    if 65 <= c as u32 && c as u32 <= 90 {
        (((c as u32) + 32) as u8) as char
    } else {
        c
    }
}

/// `s` with every ASCII capital letter folded to its small form.
pub open spec fn folded(s: Seq<char>) -> Seq<char> {
    s.map_values(|c: char| fold_char(c))
}

/// `c` with an ASCII capital letter folded to its small form.
fn fold_char_exec(c: char) -> (r: char)
    ensures
        r == fold_char(c),
{
    let u = c as u32;
    if 65 <= u && u <= 90 {
        ((u + 32) as u8) as char
    } else {
        c
    }
}

/// Whether `s`, with ASCII capitals folded, reads exactly as `keyword`.
fn matches_folded(s: &str, keyword: &str) -> (r: bool)
    ensures
        r == (folded(s@) == keyword@),
{
    let n = s.unicode_len();
    if n != keyword.unicode_len() {
        proof {
            assert(folded(s@).len() == s@.len());
        }
        return false;
    }
    let mut i: usize = 0;
    while i < n
        invariant
            n == s@.len(),
            n == keyword@.len(),
            i <= n,
            forall|j: int| 0 <= j < i ==> fold_char(s@[j]) == keyword@[j],
        decreases n - i,
    {
        let c = fold_char_exec(s.get_char(i));
        let k = keyword.get_char(i);
        if c != k {
            proof {
                assert(folded(s@)[i as int] == fold_char(s@[i as int]));
            }
            return false;
        }
        i = i + 1;
    }
    proof {
        assert(folded(s@) =~= keyword@);
    }
    true
}

impl InputMode {
    /// Read an input mode from text, taking ASCII capital letters as their
    /// small forms: exactly `stdin` names `Stdin` and exactly `filename`
    /// names `Filename`; anything else is refused with a message that names
    /// the rejected text.
    pub fn parse(s: &str) -> (r: Result<InputMode, String>)
        ensures
            r == Ok::<InputMode, String>(InputMode::Stdin) <==> folded(s@) == "stdin"@,
            r == Ok::<InputMode, String>(InputMode::Filename) <==> folded(s@) == "filename"@,
            r is Err <==> (folded(s@) != "stdin"@ && folded(s@) != "filename"@),
            r is Err ==> r->Err_0@ == "No such InputMode: "@ + s@,
    {
        proof {
            reveal_strlit("stdin");
            reveal_strlit("filename");
            assert("stdin"@.len() == 5);
            assert("filename"@.len() == 8);
        }
        if matches_folded(s, "stdin") {
            Ok(InputMode::Stdin)
        } else if matches_folded(s, "filename") {
            Ok(InputMode::Filename)
        } else {
            let mut message = "No such InputMode: ".to_owned();
            message.append(s);
            Err(message)
        }
    }
}

impl core::str::FromStr for InputMode {
    type Err = String;

    fn from_str(s: &str) -> Result<InputMode, String> {
        InputMode::parse(s)
    }
}

} // verus!
