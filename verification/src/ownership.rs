//! Short routines over vectors, strings and options, each written so that
//! every value has one owner at a time, with what it computes stated exactly.

use vstd::prelude::*;
use vstd::string::*;

verus! {

/// A holder of borrowed text.
pub struct Container<'a> {
    pub data: &'a str,
}

/// Builds `[1, 2, 3]` and adds its second element into its first.
pub fn double_borrow() -> (data: Vec<i32>)
    ensures
        data@ == seq![3i32, 2i32, 3i32],
{
    let mut data: Vec<i32> = vec![1, 2, 3];
    let second: i32 = data[1];
    data[0] += second;
    assert(data@ =~= seq![3i32, 2i32, 3i32]);
    data
}

/// Builds `5` and adds one to it twice, through one exclusive borrow after
/// the other.
pub fn mutable_aliasing() -> (x: i32)
    ensures
        x == 7,
{
    let mut x: i32 = 5;
    let y = &mut x;
    *y += 1;
    let z = &mut x;
    *z += 1;
    x
}

/// Builds `[1, 2, 3, 4, 5]`, keeps a copy of its first element and then
/// appends `6`. Returns the copied element and the vector.
pub fn mixed_borrow() -> (r: (i32, Vec<i32>))
    ensures
        r.0 == 1,
        r.1@ == seq![1i32, 2i32, 3i32, 4i32, 5i32, 6i32],
{
    let mut items: Vec<i32> = vec![1, 2, 3, 4, 5];
    let first: i32 = items[0];
    items.push(6);
    assert(items@ =~= seq![1i32, 2i32, 3i32, 4i32, 5i32, 6i32]);
    (first, items)
}

/// Builds the text `hello`, hands it from one owner to the next and returns
/// it from the last one.
pub fn use_after_move() -> (s: String)
    ensures
        s@ == "hello"@,
{
    let s1: String = "hello".to_owned();
    let s2: String = s1;
    s2
}

/// Builds the text `hello` and returns it by value.
pub fn return_local_ref() -> (s: String)
    ensures
        s@ == "hello"@,
{
    let s: String = "hello".to_owned();
    s
}

/// Builds `[1, 2, 3, 4, 5]` and walks over those five elements, appending a
/// `6` for each of them that equals `3`.
pub fn iterator_invalidation() -> (numbers: Vec<i32>)
    ensures
        numbers@ == seq![1i32, 2i32, 3i32, 4i32, 5i32, 6i32],
{
    let mut numbers: Vec<i32> = vec![1, 2, 3, 4, 5];
    let n: usize = numbers.len();
    let mut i: usize = 0;
    while i < n
        invariant
            n == 5,
            i <= n,
            i <= 2 ==> numbers@ =~= seq![1i32, 2i32, 3i32, 4i32, 5i32],
            i > 2 ==> numbers@ =~= seq![1i32, 2i32, 3i32, 4i32, 5i32, 6i32],
        decreases n - i,
    {
        if numbers[i] == 3 {
            numbers.push(6);
        }
        i += 1;
    }
    numbers
}

/// Holds the text `temporary` in a `Container`. The text is a literal, so it
/// lives as long as any holder of it.
pub fn create_dangling() -> (c: Container<'static>)
    ensures
        c.data@ == "temporary"@,
{
    Container { data: "temporary" }
}

/// Builds `[1, 2, 3]`, walks over those three elements, adds each to a sum
/// and appends a copy of it. Returns the sum and the vector.
pub fn loop_borrow() -> (r: (i32, Vec<i32>))
    ensures
        r.0 == 6,
        r.1@ == seq![1i32, 2i32, 3i32, 1i32, 2i32, 3i32],
{
    let mut data: Vec<i32> = vec![1, 2, 3];
    let mut sum: i32 = 0;
    let n: usize = data.len();
    let ghost start: Seq<i32> = data@;
    let mut i: usize = 0;
    while i < n
        invariant
            n == 3,
            i <= n,
            start =~= seq![1i32, 2i32, 3i32],
            data@ =~= start + start.subrange(0, i as int),
            sum == if i == 0 {
                0i32
            } else if i == 1 {
                1i32
            } else if i == 2 {
                3i32
            } else {
                6i32
            },
        decreases n - i,
    {
        let item: i32 = data[i];
        sum += item;
        data.push(item);
        i += 1;
    }
    assert(data@ =~= seq![1i32, 2i32, 3i32, 1i32, 2i32, 3i32]);
    (sum, data)
}

/// Holds the text `hello` in an option and takes it out again. Returns what
/// the option holds afterwards, which is nothing, and the text taken.
pub fn match_borrow() -> (r: (Option<String>, Option<String>))
    ensures
        r.0 is None,
        r.1 matches Some(s) && s@ == "hello"@,
{
    let mut opt: Option<String> = Some("hello".to_owned());
    let taken: Option<String> = opt.take();
    (opt, taken)
}

/// Builds a vector that holds the text `hello` and returns a copy of that
/// element, made through a shared borrow of the vector.
pub fn move_from_borrow() -> (s: String)
    ensures
        s@ == "hello"@,
{
    let v: Vec<String> = vec!["hello".to_owned()];
    let r: &Vec<String> = &v;
    let s: String = r[0].clone();
    s
}

/// What `lifetime_mismatch` picks: `x` where it takes more bytes of UTF-8
/// than `y`, else `y`. Here `len` is the length in bytes, as for `str`.
pub open spec fn longer_of<'a>(x: &'a str, y: &'a str) -> &'a str {
    if x.len() > y.len() {
        x
    } else {
        y
    }
}

/// Returns the longer of two texts, by their length in bytes; `y` where both
/// are equally long.
pub fn lifetime_mismatch<'a>(x: &'a str, y: &'a str) -> (r: &'a str)
    ensures
        r == longer_of(x, y),
{
    if x.len() > y.len() {
        x
    } else {
        y
    }
}

} // verus!
