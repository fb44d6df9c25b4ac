//! The address of each operation of the service.
use vstd::prelude::*;
use vstd::string::{StrSliceExecFns, StringExecFns};

verus! {

/// A character of the Unicode property White_Space, which is what
/// `char::is_whitespace` tests.
pub open spec fn is_white_space(c: char) -> bool {
    let u = c as u32;
    ||| 0x9 <= u <= 0xd
    ||| u == 0x20
    ||| u == 0x85
    ||| u == 0xa0
    ||| u == 0x1680
    ||| 0x2000 <= u <= 0x200a
    ||| u == 0x2028
    ||| u == 0x2029
    ||| u == 0x202f
    ||| u == 0x205f
    ||| u == 0x3000
}

/// A text without its leading white space.
pub open spec fn trim_start(s: Seq<char>) -> Seq<char>
    decreases s.len(),
{
    if s.len() > 0 && is_white_space(s[0]) {
        trim_start(s.drop_first())
    } else {
        s
    }
}

/// A text without its trailing white space.
pub open spec fn trim_end(s: Seq<char>) -> Seq<char>
    decreases s.len(),
{
    if s.len() > 0 && is_white_space(s.last()) {
        trim_end(s.drop_last())
    } else {
        s
    }
}

/// A text without its leading and trailing white space.
pub open spec fn trimmed(s: Seq<char>) -> Seq<char> {
    trim_end(trim_start(s))
}

/// Relies on `str::trim`: the text without its leading and trailing white
/// space, white space being the Unicode property White_Space.
#[verifier::external_body]
fn trim_name<'a>(s: &'a str) -> (r: &'a str)
    ensures
        r@ == trimmed(s@),
{
    s.trim()
}

/// A text with no white space at either end is its own trimmed text.
pub proof fn trimmed_keeps_bare_names(s: Seq<char>)
    requires
        s.len() > 0 ==> !is_white_space(s[0]) && !is_white_space(s.last()),
    ensures
        trimmed(s) == s,
{
}

/// The address every operation's path is resolved against.
pub open spec fn base() -> Seq<char> {
    "https://dog.ceo/api/"@
}

/// The character of a decimal digit.
pub open spec fn digit_char(d: nat) -> char {
    "0123456789"@[d as int]
}

/// The decimal digits of a natural number, most significant first, with no
/// leading zero.
pub open spec fn digits_of(m: nat) -> Seq<char>
    decreases m,
{
    if m < 10 {
        seq![digit_char(m)]
    } else {
        digits_of(m / 10).push(digit_char(m % 10))
    }
}

/// The decimal text of an integer, with a leading `-` when it is negative.
pub open spec fn decimal(n: int) -> Seq<char> {
    if n < 0 {
        seq!['-'] + digits_of((-n) as nat)
    } else {
        digits_of(n as nat)
    }
}

fn push_digits(s: &mut String, m: u64)
    ensures
        final(s)@ == old(s)@ + digits_of(m as nat),
    decreases m,
{
    if m >= 10 {
        push_digits(s, m / 10);
    }
    let all = "0123456789";
    proof {
        reveal_strlit("0123456789");
    }
    let d = (m % 10) as usize;
    s.append(all.substring_char(d, d + 1));
    assert(final(s)@ =~= old(s)@ + digits_of(m as nat));
}

/// Writes an integer in decimal.
pub fn decimal_text(n: i64) -> (r: String)
    ensures
        r@ == decimal(n as int),
{
    let mut s = String::new();
    if n < 0 {
        proof {
            reveal_strlit("-");
        }
        s.append("-");
        let m: u64 = ((-(n + 1)) as u64) + 1;
        push_digits(&mut s, m);
    } else {
        push_digits(&mut s, n as u64);
    }
    assert(s@ =~= decimal(n as int));
    s
}

fn breed_path(breed: &str) -> (r: String)
    ensures
        r@ == base() + "breed/"@ + trimmed(breed@),
{
    let mut u = String::from_str("https://dog.ceo/api/");
    u.append("breed/");
    u.append(trim_name(breed));
    u
}

fn sub_breed_path(breed: &str, sub_breed: &str) -> (r: String)
    ensures
        r@ == base() + "breed/"@ + trimmed(breed@) + "/"@ + trimmed(sub_breed@),
{
    let mut u = breed_path(breed);
    u.append("/");
    u.append(trim_name(sub_breed));
    u
}

/// One random image from the whole collection.
pub fn random_image() -> (r: String)
    ensures
        r@ == base() + "breeds/image/random"@,
{
    let mut u = String::from_str("https://dog.ceo/api/");
    u.append("breeds/image/random");
    u
}

/// `images_number` random images from the whole collection. The service
/// answers at most fifty; the count is passed on as it is.
pub fn multiple_random_images(images_number: i8) -> (r: String)
    ensures
        r@ == base() + "breeds/image/random/"@ + decimal(images_number as int),
{
    let mut u = String::from_str("https://dog.ceo/api/");
    u.append("breeds/image/random/");
    let n = decimal_text(images_number as i64);
    u.append(n.as_str());
    u
}

/// One random image of a breed.
pub fn random_image_by_breed(breed: &str) -> (r: String)
    ensures
        r@ == base() + "breed/"@ + trimmed(breed@) + "/images/random"@,
{
    let mut u = breed_path(breed);
    u.append("/images/random");
    u
}

/// `images_number` random images of a breed.
pub fn multiple_random_images_by_breed(breed: &str, images_number: i64) -> (r: String)
    ensures
        r@ == base() + "breed/"@ + trimmed(breed@) + "/images/random/"@ + decimal(
            images_number as int,
        ),
{
    let mut u = breed_path(breed);
    u.append("/images/random/");
    let n = decimal_text(images_number);
    u.append(n.as_str());
    u
}

/// Every image of a breed.
pub fn images_by_breed(breed: &str) -> (r: String)
    ensures
        r@ == base() + "breed/"@ + trimmed(breed@) + "/images"@,
{
    let mut u = breed_path(breed);
    u.append("/images");
    u
}

/// One random image of a sub-breed.
pub fn random_image_by_sub_breed(breed: &str, sub_breed: &str) -> (r: String)
    ensures
        r@ == base() + "breed/"@ + trimmed(breed@) + "/"@ + trimmed(sub_breed@)
            + "/images/random"@,
{
    let mut u = sub_breed_path(breed, sub_breed);
    u.append("/images/random");
    u
}

/// `images_number` random images of a sub-breed.
pub fn multiple_random_images_by_sub_breed(breed: &str, sub_breed: &str, images_number: i64) -> (r:
    String)
    ensures
        r@ == base() + "breed/"@ + trimmed(breed@) + "/"@ + trimmed(sub_breed@)
            + "/images/random/"@ + decimal(images_number as int),
{
    let mut u = sub_breed_path(breed, sub_breed);
    u.append("/images/random/");
    let n = decimal_text(images_number);
    u.append(n.as_str());
    u
}

/// Every image of a sub-breed.
pub fn images_by_sub_breed(breed: &str, sub_breed: &str) -> (r: String)
    ensures
        r@ == base() + "breed/"@ + trimmed(breed@) + "/"@ + trimmed(sub_breed@) + "/images"@,
{
    let mut u = sub_breed_path(breed, sub_breed);
    u.append("/images");
    u
}

/// The catalog of every breed with its sub-breeds.
pub fn breeds_list() -> (r: String)
    ensures
        r@ == base() + "breeds/list/all"@,
{
    let mut u = String::from_str("https://dog.ceo/api/");
    u.append("breeds/list/all");
    u
}

/// The sub-breeds of a breed.
pub fn sub_breeds_list(breed: &str) -> (r: String)
    ensures
        r@ == base() + "breed/"@ + trimmed(breed@) + "/list"@,
{
    let mut u = breed_path(breed);
    u.append("/list");
    u
}

} // verus!
