//! The identifier: its parts, its check digits, and its assembled forms.

use vstd::prelude::*;
use crate::checksum::{
    check_char_10, check_char_13, lemma_weighted_sum_10_bounded, lemma_weighted_sum_13_bounded,
    weighted_sum_10, weighted_sum_13,
};
use crate::digits::{
    all_digits, char_to_digit, digit_to_char, format_padded, is_digit_string,
    lemma_pow10_monotone, padded_decimal, pow10, pow10_exec, push_char,
};
use crate::random::random_below;

verus! {

/// An ISBN with its parts kept apart, as digit strings.
pub struct Isbn {
    pub head_code: String,
    pub country_code: String,
    pub publisher_code: String,
    pub publication_code: String,
    pub check_digit_10: String,
    pub check_digit_13: String,
}

/// The width of the publication code that follows a country code of `country_len`
/// digits and a publisher code of `publisher_len` digits: what is left of the ten
/// characters of an ISBN-10 once the check digit is counted.
pub open spec fn publication_width(country_len: nat, publisher_len: nat) -> int {
    10 - (country_len + publisher_len + 1)
}

/// The parts from which an identifier can be built: a three-digit head code and
/// non-empty digit-string country and publisher codes that leave room for a
/// publication code.
pub open spec fn valid_parts(head: Seq<char>, country: Seq<char>, publisher: Seq<char>) -> bool {
    &&& head.len() == 3
    &&& all_digits(head)
    &&& all_digits(country)
    &&& all_digits(publisher)
    &&& country.len() >= 1
    &&& publisher.len() >= 1
    &&& country.len() + publisher.len() <= 8
}

impl Isbn {
    /// The digits that the ISBN-10 check digit is computed from.
    pub open spec fn body_10(&self) -> Seq<char> {
        self.country_code@ + self.publisher_code@ + self.publication_code@
    }

    /// The digits that the ISBN-13 check digit is computed from.
    pub open spec fn body_13(&self) -> Seq<char> {
        self.head_code@ + self.body_10()
    }

    /// The ISBN-10 form: the body followed by its check digit.
    pub open spec fn isbn_10(&self) -> Seq<char> {
        self.body_10() + self.check_digit_10@
    }

    /// The ISBN-13 form: head code and body followed by its check digit.
    pub open spec fn isbn_13(&self) -> Seq<char> {
        self.body_13() + self.check_digit_13@
    }

    /// Well-formed: valid parts, a publication code that fills the body to nine
    /// digits, and the two check digits that the body determines.
    pub open spec fn wf(&self) -> bool {
        &&& valid_parts(self.head_code@, self.country_code@, self.publisher_code@)
        &&& all_digits(self.publication_code@)
        &&& self.publication_code@.len() == publication_width(
            self.country_code@.len(),
            self.publisher_code@.len(),
        )
        &&& self.check_digit_10@ == seq![check_char_10(self.body_10())]
        &&& self.check_digit_13@ == seq![check_char_13(self.body_13())]
    }

    /// Builds an identifier with a random publication code of the width that the
    /// country and publisher codes leave.
    pub fn new(head_code: String, country_code: String, publisher_code: String) -> (r: Isbn)
        requires
            valid_parts(head_code@, country_code@, publisher_code@),
        ensures
            r.wf(),
            r.head_code@ == head_code@,
            r.country_code@ == country_code@,
            r.publisher_code@ == publisher_code@,
            exists|draw: nat|
                draw < pow10(
                    publication_width(country_code@.len(), publisher_code@.len()) as nat,
                ) && r.publication_code@ == #[trigger] padded_decimal(
                    draw,
                    publication_width(country_code@.len(), publisher_code@.len()) as nat,
                ),
    {
        let publication_code = Self::generate_publication_code(&country_code, &publisher_code);
        Self::from_parts(head_code, country_code, publisher_code, publication_code)
    }

    /// Builds an identifier from all four of its parts, computing both check digits.
    pub fn from_parts(
        head_code: String,
        country_code: String,
        publisher_code: String,
        publication_code: String,
    ) -> (r: Isbn)
        requires
            valid_parts(head_code@, country_code@, publisher_code@),
            all_digits(publication_code@),
            publication_code@.len() == publication_width(
                country_code@.len(),
                publisher_code@.len(),
            ),
        ensures
            r.wf(),
            r.head_code@ == head_code@,
            r.country_code@ == country_code@,
            r.publisher_code@ == publisher_code@,
            r.publication_code@ == publication_code@,
    {
        let check_digit_10 = Self::calc_check_digit_10(
            &country_code,
            &publisher_code,
            &publication_code,
        );
        let check_digit_13 = Self::calc_check_digit_13(
            &head_code,
            &country_code,
            &publisher_code,
            &publication_code,
        );
        proof {
            assert(head_code@ + country_code@ + publisher_code@ + publication_code@ =~= head_code@
                + (country_code@ + publisher_code@ + publication_code@));
        }
        Isbn {
            head_code,
            country_code,
            publisher_code,
            publication_code,
            check_digit_10,
            check_digit_13,
        }
    }

    /// Builds an identifier from its head, country and publisher codes, or `None`
    /// where they are not valid parts (a non-digit character, a head code that is
    /// not three digits, an empty country or publisher code, or country and
    /// publisher codes longer than eight digits together).
    pub fn try_new(
        head_code: String,
        country_code: String,
        publisher_code: String,
    ) -> (r: Option<Isbn>)
        ensures
            r is Some <==> valid_parts(head_code@, country_code@, publisher_code@),
            r matches Some(isbn) ==> {
                &&& isbn.wf()
                &&& isbn.head_code@ == head_code@
                &&& isbn.country_code@ == country_code@
                &&& isbn.publisher_code@ == publisher_code@
            },
    {
        let head_len = head_code.as_str().unicode_len();
        let country_len = country_code.as_str().unicode_len();
        let publisher_len = publisher_code.as_str().unicode_len();
        if head_len == 3 && is_digit_string(&head_code) && is_digit_string(&country_code)
            && is_digit_string(&publisher_code) && country_len >= 1 && publisher_len >= 1
            && country_len <= 8 && publisher_len <= 8 - country_len {
            Some(Self::new(head_code, country_code, publisher_code))
        } else {
            None
        }
    }

    /// The publication code written from a drawn number: its last `width` decimal
    /// digits, left-padded with `'0'`, where `width` is what the country and
    /// publisher codes leave.
    pub fn publication_code_from_draw(
        country_code: &String,
        publisher_code: &String,
        draw: u64,
    ) -> (r: String)
        requires
            country_code@.len() + publisher_code@.len() <= 8,
        ensures
            r@ == padded_decimal(
                draw as nat,
                publication_width(country_code@.len(), publisher_code@.len()) as nat,
            ),
            r@.len() == publication_width(country_code@.len(), publisher_code@.len()),
            all_digits(r@),
    {
        let width = 10 - (country_code.as_str().unicode_len() + publisher_code.as_str().unicode_len()
            + 1);
        format_padded(draw, width)
    }

    /// A random publication code: a number drawn uniformly below `10^width`,
    /// written with exactly `width` digits.
    pub fn generate_publication_code(country_code: &String, publisher_code: &String) -> (r: String)
        requires
            country_code@.len() + publisher_code@.len() <= 8,
        ensures
            r@.len() == publication_width(country_code@.len(), publisher_code@.len()),
            all_digits(r@),
            exists|draw: nat|
                draw < pow10(
                    publication_width(country_code@.len(), publisher_code@.len()) as nat,
                ) && r@ == #[trigger] padded_decimal(
                    draw,
                    publication_width(country_code@.len(), publisher_code@.len()) as nat,
                ),
    {
        let width = 10 - (country_code.as_str().unicode_len() + publisher_code.as_str().unicode_len()
            + 1);
        proof {
            lemma_pow10_monotone(0, width as nat);
        }
        let draw = random_below(pow10_exec(width));
        Self::publication_code_from_draw(country_code, publisher_code, draw)
    }

    /// The ISBN-10 form: country, publisher and publication codes, then the check digit.
    pub fn create_isbn_10(&self) -> (r: String)
        ensures
            r@ == self.isbn_10(),
            self.wf() ==> r@.len() == 10,
    {
        let mut r = self.country_code.clone();
        r.append(self.publisher_code.as_str());
        r.append(self.publication_code.as_str());
        r.append(self.check_digit_10.as_str());
        r
    }

    /// The ISBN-13 form: head, country, publisher and publication codes, then the
    /// check digit.
    pub fn create_isbn_13(&self) -> (r: String)
        ensures
            r@ == self.isbn_13(),
            self.wf() ==> r@.len() == 13,
    {
        let mut r = self.head_code.clone();
        r.append(self.country_code.as_str());
        r.append(self.publisher_code.as_str());
        r.append(self.publication_code.as_str());
        r.append(self.check_digit_13.as_str());
        proof {
            assert(r@ =~= self.isbn_13());
        }
        r
    }

    /// Computes the ISBN-10 check digit of `country_code + publisher_code + publication_code`.
    pub fn calc_check_digit_10(
        country_code: &String,
        publisher_code: &String,
        publication_code: &String,
    ) -> (r: String)
        requires
            all_digits(country_code@),
            all_digits(publisher_code@),
            all_digits(publication_code@),
            country_code@.len() + publisher_code@.len() + publication_code@.len() == 9,
        ensures
            r@ == seq![check_char_10(country_code@ + publisher_code@ + publication_code@)],
    {
        let mut s = country_code.clone();
        s.append(publisher_code.as_str());
        s.append(publication_code.as_str());
        let ghost d = s@;
        assert(all_digits(d));
        let mut total: u64 = 0;
        let mut i: usize = 0;
        while i < 9
            invariant
                i <= 9,
                s@ == d,
                d.len() == 9,
                all_digits(d),
                total == weighted_sum_10(d, i as nat),
            decreases 9 - i,
        {
            proof {
                lemma_weighted_sum_10_bounded(d, (i + 1) as nat);
            }
            let v = char_to_digit(s.as_str().get_char(i));
            total = total + v * (10 - i as u64);
            i = i + 1;
        }
        let rem = total % 11;
        let mut r = String::new();
        if rem == 0 {
            push_char(&mut r, '0');
        } else if rem == 1 {
            push_char(&mut r, 'X');
        } else {
            push_char(&mut r, digit_to_char(11 - rem));
        }
        r
    }

    /// Computes the ISBN-13 check digit of
    /// `head_code + country_code + publisher_code + publication_code`.
    pub fn calc_check_digit_13(
        head_code: &String,
        country_code: &String,
        publisher_code: &String,
        publication_code: &String,
    ) -> (r: String)
        requires
            all_digits(head_code@),
            all_digits(country_code@),
            all_digits(publisher_code@),
            all_digits(publication_code@),
            head_code@.len() + country_code@.len() + publisher_code@.len()
                + publication_code@.len() == 12,
        ensures
            r@ == seq![
                check_char_13(head_code@ + country_code@ + publisher_code@ + publication_code@),
            ],
    {
        let mut s = head_code.clone();
        s.append(country_code.as_str());
        s.append(publisher_code.as_str());
        s.append(publication_code.as_str());
        let ghost d = s@;
        assert(all_digits(d));
        let mut total: u64 = 0;
        let mut i: usize = 0;
        while i < 12
            invariant
                i <= 12,
                s@ == d,
                d.len() == 12,
                all_digits(d),
                total == weighted_sum_13(d, i as nat),
            decreases 12 - i,
        {
            proof {
                lemma_weighted_sum_13_bounded(d, (i + 1) as nat);
            }
            let v = char_to_digit(s.as_str().get_char(i));
            if i % 2 == 0 {
                total = total + v;
            } else {
                total = total + v * 3;
            }
            i = i + 1;
        }
        let rem = total % 10;
        let mut r = String::new();
        if rem == 0 {
            push_char(&mut r, '0');
        } else {
            push_char(&mut r, digit_to_char(10 - rem));
        }
        r
    }
}

/// Both assembled forms of a well-formed identifier have their full lengths:
/// ten characters for the ISBN-10 form, thirteen for the ISBN-13 form.
pub proof fn lemma_assembled_lengths(isbn: Isbn)
    requires
        isbn.wf(),
    ensures
        isbn.isbn_10().len() == 10,
        isbn.isbn_13().len() == 13,
{
}

/// Recomputing each check digit from the assembled form's own prefix gives back
/// the check digit that the form ends with.
pub proof fn lemma_check_digits_round_trip(isbn: Isbn)
    requires
        isbn.wf(),
    ensures
        check_char_10(isbn.isbn_10().subrange(0, 9)) == isbn.isbn_10()[9],
        check_char_13(isbn.isbn_13().subrange(0, 12)) == isbn.isbn_13()[12],
{
    assert(isbn.isbn_10().subrange(0, 9) =~= isbn.body_10());
    assert(isbn.isbn_13().subrange(0, 12) =~= isbn.body_13());
}

/// The check digits are functions of the digits alone: parts that spell the same
/// digits, however they are split into codes, get the same check digits.
pub proof fn lemma_check_digits_depend_on_digits_only(
    country_a: Seq<char>,
    publisher_a: Seq<char>,
    publication_a: Seq<char>,
    country_b: Seq<char>,
    publisher_b: Seq<char>,
    publication_b: Seq<char>,
    head: Seq<char>,
)
    requires
        country_a + publisher_a + publication_a == country_b + publisher_b + publication_b,
    ensures
        check_char_10(country_a + publisher_a + publication_a) == check_char_10(
            country_b + publisher_b + publication_b,
        ),
        check_char_13(head + country_a + publisher_a + publication_a) == check_char_13(
            head + country_b + publisher_b + publication_b,
        ),
{
    assert(head + country_a + publisher_a + publication_a =~= head + (country_a + publisher_a
        + publication_a));
    assert(head + country_b + publisher_b + publication_b =~= head + (country_b + publisher_b
        + publication_b));
}

} // verus!
