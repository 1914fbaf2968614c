use vstd::prelude::*;
use vstd::utf8::encode_utf8;

verus! {

/// The text that the constructing operations start from.
pub open spec fn greeting() -> Seq<char> {
    "hello"@
}

/// The number of bytes that a text takes in UTF-8: what `len` reports.
pub open spec fn byte_len(s: Seq<char>) -> nat {
    encode_utf8(s).len()
}

/// Builds a fresh owned buffer and hands it, with its ownership, to the caller.
pub fn gives_ownership() -> (r: String)
    ensures
        r@ == greeting(),
{
    let some_string = String::from_str("hello");
    some_string
}

/// Takes ownership of a buffer and returns that same buffer, so that ownership
/// comes back to the caller's receiving variable.
pub fn takes_and_gives_back(a_string: String) -> (r: String)
    ensures
        r == a_string,
{
    a_string
}

/// Takes ownership of a buffer and returns it together with its length in
/// bytes: the caller gets the buffer back without a borrow.
pub fn calculate_length(s: String) -> (r: (String, usize))
    ensures
        r.0 == s,
        r.1 == byte_len(s@) as usize,
{
    let length = s.as_str().len();
    (s, length)
}

/// Reads the length in bytes through a shared borrow; the caller keeps the
/// buffer, unchanged.
pub fn calculate_length_ref(s: &String) -> (r: usize)
    ensures
        r == byte_len(s@) as usize,
{
    s.as_str().len()
}

/// Appends `", world"` through an exclusive borrow; the caller sees the change
/// in the buffer it still owns.
pub fn change(some_string: &mut String)
    ensures
        final(some_string)@ == old(some_string)@ + ", world"@,
{
    some_string.append(", world");
}

/// Builds a mutable buffer holding the greeting and appends `suffix` in place.
pub fn mutate_in_place(suffix: &str) -> (r: String)
    ensures
        r@ == greeting() + suffix@,
{
    let mut s = String::from_str("hello");
    s.append(suffix);
    s
}

/// Copies a scalar, then changes the original by `delta_a` and the copy by
/// `delta_b`: each change shows in its own variable only.
pub fn copy_then_mutate(a: i32, delta_a: i32, delta_b: i32) -> (r: (i32, i32))
    requires
        i32::MIN <= a + delta_a <= i32::MAX,
        i32::MIN <= a + delta_b <= i32::MAX,
    ensures
        r.0 == a + delta_a,
        r.1 == a + delta_b,
{
    let mut x: i32 = a;
    let mut y: i32 = x;
    x = x + delta_a;
    y = y + delta_b;
    (x, y)
}

/// Clones `original` into a second, independent buffer, then appends
/// `to_original` to the first and `to_clone` to the second: each buffer holds
/// the common contents followed by its own suffix only.
pub fn clone_then_mutate(original: String, to_original: &str, to_clone: &str) -> (r: (
    String,
    String,
))
    ensures
        r.0@ == original@ + to_original@,
        r.1@ == original@ + to_clone@,
{
    let mut first = original;
    let mut second = first.clone();
    first.append(to_original);
    second.append(to_clone);
    (first, second)
}

} // verus!
