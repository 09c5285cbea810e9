//! Small string and arithmetic helpers.
use vstd::prelude::*;
use vstd::string::StrSliceExecFns;
use vstd::string::StringExecFns;
use vstd::utf8::encode_utf8;

verus! {

/// The sum of two integers.
pub fn add(a: i64, b: i64) -> (r: i64)
    requires
        i64::MIN <= a + b <= i64::MAX,
    ensures
        r == a + b,
{
    a + b
}

/// The index of the first `'a'` in `s`, if there is one.
pub fn find_first_a(s: &String) -> (r: Option<i32>)
    requires
        s@.len() <= i32::MAX,
    ensures
        match r {
            Some(i) => 0 <= i < s@.len() && s@[i as int] == 'a' && forall|j: int|
                0 <= j < i ==> s@[j] != 'a',
            None => forall|j: int| 0 <= j < s@.len() ==> s@[j] != 'a',
        },
{
    let n: usize = s.as_str().unicode_len();
    let mut i: usize = 0;
    while i < n
        invariant
            n == s@.len(),
            n <= i32::MAX,
            i <= n,
            forall|j: int| 0 <= j < i ==> s@[j] != 'a',
        decreases n - i,
    {
        if s.as_str().get_char(i) == 'a' {
            return Some(i as i32);
        }
        i = i + 1;
    }
    None
}

/// Hands the string back together with its length in bytes.
pub fn get_length(s: String) -> (r: (String, usize))
    ensures
        r.0@ == s@,
        r.1 == encode_utf8(s@).len() as usize,
{
    let len = s.as_str().len();
    (s, len)
}

/// The length of the string in bytes.
pub fn get_string_length(s: &String) -> (r: usize)
    ensures
        r == encode_utf8(s@).len() as usize,
{
    s.as_str().len()
}

/// Appends a fixed phrase to the string.
pub fn append_text(s: &mut String)
    ensures
        final(s)@ == old(s)@ + " is a good boy"@,
{
    s.append(" is a good boy");
}

/// A user that borrows its name.
pub struct User<'a> {
    pub name: &'a str,
}

impl<'a> User<'a> {
    pub fn new(name: &'a str) -> (r: User<'a>)
        ensures
            r.name@ == name@,
    {
        User { name }
    }
}

} // verus!
