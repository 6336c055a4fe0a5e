//! The name of the file that an issue is written to.

use crate::model::Issue;
use crate::text::{
    all_digits, decimal, digits_value, is_digit, lemma_decimal_len,
    lemma_zero_padded, push_zero_padded, zero_padded,
};
use vstd::prelude::*;
use vstd::string::*;

verus! {

/// The slug of a title: the title in lower-case ASCII letters and digits, with one hyphen for
/// each run of anything else.
pub uninterp spec fn slug_of(title: Seq<char>) -> Seq<char>;

/// Whether `c` may stand in a slug: a lower-case ASCII letter, a digit or a hyphen.
pub open spec fn is_slug_char(c: char) -> bool {
    'a' <= c <= 'z' || '0' <= c <= '9' || c == '-'
}

/// Whether `s` has the form of a slug: made of slug characters, with no hyphen at either end
/// and no two hyphens in a row.
pub open spec fn is_slug(s: Seq<char>) -> bool {
    &&& forall|i: int| 0 <= i < s.len() ==> is_slug_char(#[trigger] s[i])
    &&& s.len() > 0 ==> s[0] != '-' && s[s.len() - 1] != '-'
    &&& forall|i: int| 0 <= i < s.len() - 1 ==> !(#[trigger] s[i] == '-' && s[i + 1] == '-')
}

/// `slug::slugify`: the slug of `title`. It depends on the title alone, and it has the form
/// that the function promises of every slug.
#[verifier::external_body]
fn slugify(title: &str) -> (slug: String)
    ensures
        slug@ == slug_of(title@),
        is_slug(slug@),
{
    slug::slugify(title)
}

/// The number of digits that an issue number is padded to.
pub const NUMBER_WIDTH: usize = 3;

/// The name of the file of an issue: its number, padded with zeros to three digits, a hyphen,
/// the slug of its title, and `.md`.
pub open spec fn file_name(number: u64, slug: Seq<char>) -> Seq<char> {
    zero_padded(number as nat, NUMBER_WIDTH as nat) + seq!['-'] + slug + seq!['.', 'm', 'd']
}

/// The path of the file of an issue: the directory, `/`, and the name of the file.
pub open spec fn file_path(directory: Seq<char>, number: u64, slug: Seq<char>) -> Seq<char> {
    directory + seq!['/'] + file_name(number, slug)
}

/// The path, under the directory `path`, of the file for the issue with this number and the
/// slug of its title.
pub fn filename(path: &str, number: u64, slug: &str) -> (name: String)
    ensures
        name@ == file_path(path@, number, slug@),
{
    proof {
        reveal_strlit("/");
        reveal_strlit("-");
        reveal_strlit(".md");
    }
    let mut name = path.to_owned();
    name.append("/");
    push_zero_padded(&mut name, number, NUMBER_WIDTH);
    name.append("-");
    name.append(slug);
    name.append(".md");
    assert(name@ =~= file_path(path@, number, slug@));
    name
}

/// The path, under the directory `path`, of the file that `issue` is written to. It is a
/// function of the directory, the number and the title: the same issue always goes to the same
/// file. The title enters it as its slug only.
pub fn issue_to_filename(path: &str, issue: &Issue) -> (name: String)
    ensures
        name@ == file_path(path@, issue.number, slug_of(issue.title@)),
        is_slug(slug_of(issue.title@)),
{
    let slug = slugify(issue.title.as_str());
    filename(path, issue.number, slug.as_str())
}

/// The number at the head of a file name: at least three digits, exactly three for a number
/// below 1000, and the plain numeral, with nothing cut off, from 100 on. Read as a number it is
/// the issue number again.
pub proof fn lemma_padded_number(number: u64)
    ensures
        zero_padded(number as nat, 3).len() >= 3,
        number < 1000 ==> zero_padded(number as nat, 3).len() == 3,
        number >= 100 ==> zero_padded(number as nat, 3) == decimal(number as nat),
        all_digits(zero_padded(number as nat, 3)),
        digits_value(zero_padded(number as nat, 3)) == number,
{
    lemma_zero_padded(number as nat, 3);
    assert(decimal(999).len() == 3 && decimal(100).len() == 3) by {
        reveal_with_fuel(decimal, 4);
    }
    if number < 1000 {
        lemma_decimal_len(number as nat, 999);
    }
    if number >= 100 {
        lemma_decimal_len(100, number as nat);
    }
}

/// The parts of a file name: it begins with the padded number, a hyphen follows, then the slug,
/// and `.md` ends it. Before the `.md` it holds nothing but lower-case letters, digits and
/// hyphens: no space and no other punctuation.
pub proof fn lemma_file_name(number: u64, slug: Seq<char>)
    requires
        is_slug(slug),
    ensures
        ({
            let name = file_name(number, slug);
            let digits = zero_padded(number as nat, 3);
            &&& name.len() == digits.len() + 1 + slug.len() + 3
            &&& name.take(digits.len() as int) == digits
            &&& name[digits.len() as int] == '-'
            &&& name.subrange(digits.len() + 1int, name.len() - 3) == slug
            &&& name.skip(name.len() - 3) == seq!['.', 'm', 'd']
            &&& forall|i: int| 0 <= i < name.len() - 3 ==> is_slug_char(#[trigger] name[i])
        }),
{
    let name = file_name(number, slug);
    let digits = zero_padded(number as nat, 3);
    lemma_padded_number(number);
    assert(name.take(digits.len() as int) =~= digits);
    assert(name.subrange(digits.len() + 1int, name.len() - 3) =~= slug);
    assert(name.skip(name.len() - 3) =~= seq!['.', 'm', 'd']);
    assert forall|i: int| 0 <= i < name.len() - 3 implies is_slug_char(#[trigger] name[i]) by {
        if i < digits.len() {
            assert(name[i] == digits[i]);
            assert(is_digit(digits[i]));
        } else if i > digits.len() {
            assert(name[i] == slug[i - digits.len() - 1]);
        }
    }
}

} // verus!
