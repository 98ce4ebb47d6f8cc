use vstd::prelude::*;

verus! {

/// The index of the first `-` in `s`, or -1 where there is none.
pub open spec fn first_dash(s: Seq<char>) -> int
    decreases s.len(),
{
    if s.len() == 0 {
        -1
    } else if s[0] == '-' {
        0
    } else {
        let k = first_dash(s.drop_first());
        if k < 0 {
            -1
        } else {
            k + 1
        }
    }
}

/// A nameplate is made of ASCII digits and is not the number zero.
pub open spec fn nameplate_ok(n: Seq<char>) -> bool {
    &&& forall|i: int| 0 <= i < n.len() ==> '0' <= #[trigger] n[i] <= '9'
    &&& !(n.len() > 0 && forall|i: int| 0 <= i < n.len() ==> #[trigger] n[i] == '0')
}

/// Every character of `p` is ASCII, so that its length in bytes is its length in characters.
pub open spec fn all_ascii(p: Seq<char>) -> bool {
    forall|i: int| 0 <= i < p.len() ==> (#[trigger] p[i] as u32) < 128
}

/// Relies on `magic_wormhole::Code::from_str` (without the `entropy` feature):
/// the text up to the first `-` must be a nameplate, the rest a password of at
/// least four bytes; the parsed code prints as the text it was parsed from.
#[verifier::external_body]
fn parse_code(s: &str) -> (r: Option<String>)
    ensures
        r matches Some(c) ==> c@ == s@,
        first_dash(s@) < 0 ==> r is None,
        first_dash(s@) >= 0 && !nameplate_ok(s@.take(first_dash(s@))) ==> r is None,
        first_dash(s@) >= 0 && nameplate_ok(s@.take(first_dash(s@))) && s@.skip(
            first_dash(s@) + 1,
        ).len() >= 4 ==> r is Some,
        first_dash(s@) >= 0 && all_ascii(s@.skip(first_dash(s@) + 1)) && s@.skip(
            first_dash(s@) + 1,
        ).len() < 4 ==> r is None,
{
    s.parse::<magic_wormhole::Code>().ok().map(|c| c.to_string())
}

/// Why a wormhole code was turned down before any connection.
#[derive(Clone, Copy, Debug, PartialEq, Eq, Structural)]
pub enum CodeError {
    Empty,
    Malformed,
}

/// Checks a code typed or handed in by a user, keeping it verbatim. A code
/// must begin with a numeric nameplate, then a `-` and a password.
pub fn validate_code(code: &str) -> (r: Result<String, CodeError>)
    ensures
        code@.len() == 0 <==> r == Err::<String, CodeError>(CodeError::Empty),
        r matches Ok(c) ==> c@ == code@,
        first_dash(code@) <= 0 ==> r is Err,
        first_dash(code@) > 0 && !nameplate_ok(code@.take(first_dash(code@))) ==> r is Err,
        first_dash(code@) > 0 && all_ascii(code@.skip(first_dash(code@) + 1)) && code@.skip(
            first_dash(code@) + 1,
        ).len() < 4 ==> r is Err,
        first_dash(code@) > 0 && nameplate_ok(code@.take(first_dash(code@))) && code@.skip(
            first_dash(code@) + 1,
        ).len() >= 4 ==> r is Ok,
{
    if code.is_empty() {
        return Err(CodeError::Empty);
    }
    if code.get_char(0) == '-' {
        return Err(CodeError::Malformed);
    }
    match parse_code(code) {
        Some(c) => Ok(c),
        None => Err(CodeError::Malformed),
    }
}

} // verus!
