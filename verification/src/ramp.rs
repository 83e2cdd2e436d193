use vstd::prelude::*;

verus! {

/// Relies on `str::chars`: the characters of the string, in order.
#[verifier::external_body]
pub(crate) fn str_chars(s: &str) -> (r: Vec<char>)
    ensures
        r@ == s@,
{
    s.chars().collect()
}

/// Relies on `String`'s `FromIterator` over characters: the string made
/// of exactly the given characters, in order.
#[verifier::external_body]
pub(crate) fn chars_string(v: &Vec<char>) -> (r: String)
    ensures
        r@ == v@,
{
    v.iter().collect()
}

pub open spec fn default_texture_spec() -> Seq<char> {
    seq![' ', '.', ',', ':', '-', '=', '*', '#', '@']
}

pub open spec fn unicode_texture_spec() -> Seq<char> {
    seq![' ', '░', '▒', '▓', '█']
}

pub open spec fn mixed_texture_spec() -> Seq<char> {
    seq![' ', '.', '-', '=', '*', '#', '@', '░', '▒', '▓', '█']
}

/// The default ASCII texture ramp, darkest cell first.
pub fn default_texture() -> (t: Vec<char>)
    ensures
        t@ == default_texture_spec(),
{
    let mut t: Vec<char> = Vec::new();
    t.push(' ');
    t.push('.');
    t.push(',');
    t.push(':');
    t.push('-');
    t.push('=');
    t.push('*');
    t.push('#');
    t.push('@');
    proof {
        assert(t@ =~= default_texture_spec());
    }
    t
}

/// A ramp of block characters, darkest cell first.
pub fn unicode_texture() -> (t: Vec<char>)
    ensures
        t@ == unicode_texture_spec(),
{
    let mut t: Vec<char> = Vec::new();
    t.push(' ');
    t.push('░');
    t.push('▒');
    t.push('▓');
    t.push('█');
    proof {
        assert(t@ =~= unicode_texture_spec());
    }
    t
}

/// A ramp mixing ASCII and block characters, darkest cell first.
pub fn mixed_texture() -> (t: Vec<char>)
    ensures
        t@ == mixed_texture_spec(),
{
    let mut t: Vec<char> = Vec::new();
    t.push(' ');
    t.push('.');
    t.push('-');
    t.push('=');
    t.push('*');
    t.push('#');
    t.push('@');
    t.push('░');
    t.push('▒');
    t.push('▓');
    t.push('█');
    proof {
        assert(t@ =~= mixed_texture_spec());
    }
    t
}

} // verus!
