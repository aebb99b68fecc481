use vstd::prelude::*;

verus! {

/// The character of a decimal digit.
pub open spec fn digit(d: nat) -> char {
    if d == 0 { '0' }
    else if d == 1 { '1' }
    else if d == 2 { '2' }
    else if d == 3 { '3' }
    else if d == 4 { '4' }
    else if d == 5 { '5' }
    else if d == 6 { '6' }
    else if d == 7 { '7' }
    else if d == 8 { '8' }
    else { '9' }
}

/// The decimal digits of `n`, most significant first, with no leading zero.
pub open spec fn decimal(n: nat) -> Seq<char>
    decreases n,
{
    if n < 10 {
        seq![digit(n)]
    } else {
        decimal(n / 10).push(digit(n % 10))
    }
}

/// The label of a cursor at a zero-based line and offset in the line: both
/// counted from one, joined by a colon.
pub open spec fn position_label_spec(line: nat, offset: nat) -> Seq<char> {
    decimal(line + 1) + seq![':'] + decimal(offset + 1)
}

fn digit_str(d: u128) -> (r: &'static str)
    requires
        d < 10,
    ensures
        r@ == seq![digit(d as nat)],
{
    proof {
        reveal_strlit("0");
        reveal_strlit("1");
        reveal_strlit("2");
        reveal_strlit("3");
        reveal_strlit("4");
        reveal_strlit("5");
        reveal_strlit("6");
        reveal_strlit("7");
        reveal_strlit("8");
        reveal_strlit("9");
    }
    if d == 0 { "0" }
    else if d == 1 { "1" }
    else if d == 2 { "2" }
    else if d == 3 { "3" }
    else if d == 4 { "4" }
    else if d == 5 { "5" }
    else if d == 6 { "6" }
    else if d == 7 { "7" }
    else if d == 8 { "8" }
    else { "9" }
}

/// Writes `n` in decimal.
pub fn decimal_string(n: u128) -> (r: String)
    ensures
        r@ == decimal(n as nat),
    decreases n,
{
    if n < 10 {
        String::from_str(digit_str(n))
    } else {
        let mut s = decimal_string(n / 10);
        s.append(digit_str(n % 10));
        s
    }
}

/// The text that shows where the cursor stands: the zero-based line and
/// byte offset in the line that the buffer reports, each shown counted
/// from one.
pub fn position_label(line: usize, offset: usize) -> (r: String)
    ensures
        r@ == position_label_spec(line as nat, offset as nat),
{
    let mut s = decimal_string(line as u128 + 1);
    s.append(":");
    let c = decimal_string(offset as u128 + 1);
    s.append(c.as_str());
    proof {
        reveal_strlit(":");
    }
    s
}

/// The extension that `std::path::Path::extension` finds in a path, where
/// it is valid Unicode.
pub uninterp spec fn extension_of(path: Seq<char>) -> Option<Seq<char>>;

/// Relies on `std::path::Path::extension` and `OsStr::to_str`: the part of
/// the file name after its last dot, where there is one.
#[verifier::external_body]
pub(crate) fn path_extension(path: &str) -> (r: Option<String>)
    ensures
        match r {
            Some(e) => extension_of(path@) == Some(e@),
            None => extension_of(path@) is None,
        },
{
    std::path::Path::new(path).extension().and_then(|e| e.to_str()).map(|e| e.to_string())
}

/// Appends the fixed location of the file loaded at start to a directory.
pub fn default_load_file(manifest_dir: &str) -> (r: String)
    ensures
        r@ == manifest_dir@ + "/src/main.rs"@,
{
    let mut s = String::from_str(manifest_dir);
    s.append("/src/main.rs");
    s
}

} // verus!
