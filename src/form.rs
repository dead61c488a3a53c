//! Decoding a form-urlencoded request body into the two subscriber fields.
use vstd::prelude::*;

use crate::text::{eq_ignoring_ascii_case, same_text, same_text_ignoring_ascii_case};

verus! {

/// The (name, value) pairs that `form_urlencoded::parse` reads from a body.
pub uninterp spec fn form_pairs(body: Seq<u8>) -> Seq<(Seq<char>, Seq<char>)>;

/// Relies on `form_urlencoded::parse`: it splits the body into percent-decoded
/// (name, value) pairs, in the order they stand, and reads none from an empty body.
#[verifier::external_body]
fn parse_pairs(body: &[u8]) -> (r: Vec<(String, String)>)
    ensures
        pairs_view(r@) == form_pairs(body@),
        body@.len() == 0 ==> r@.len() == 0,
{
    form_urlencoded::parse(body).into_owned().collect()
}

/// The pairs of a decoded body, as texts.
pub open spec fn pairs_view(v: Seq<(String, String)>) -> Seq<(Seq<char>, Seq<char>)> {
    v.map_values(|p: (String, String)| (p.0@, p.1@))
}

/// A required field of the form.
#[derive(Clone, Copy, Debug, PartialEq, Eq, Structural)]
pub enum Field {
    Email,
    Name,
}

/// Why a request body is not a subscription form.
#[derive(Clone, Copy, Debug, PartialEq, Eq, Structural)]
pub enum FormError {
    /// The media type is not `application/x-www-form-urlencoded`.
    UnsupportedContentType,
    /// The field does not occur.
    Missing(Field),
    /// The field occurs more than once.
    Duplicate(Field),
    /// The field occurs with an empty value, which counts as absent.
    Empty(Field),
}

/// A decoded submission: both fields present and non-empty.
pub struct FormData {
    pub email: String,
    pub name: String,
}

impl FormData {
    pub open spec fn wf(&self) -> bool {
        self.email@.len() > 0 && self.name@.len() > 0
    }
}

pub open spec fn form_media_type() -> Seq<char> {
    seq![
        'a', 'p', 'p', 'l', 'i', 'c', 'a', 't', 'i', 'o', 'n', '/', 'x', '-', 'w', 'w', 'w', '-',
        'f', 'o', 'r', 'm', '-', 'u', 'r', 'l', 'e', 'n', 'c', 'o', 'd', 'e', 'd',
    ]
}

pub open spec fn field_key(f: Field) -> Seq<char> {
    match f {
        Field::Email => seq!['e', 'm', 'a', 'i', 'l'],
        Field::Name => seq!['n', 'a', 'm', 'e'],
    }
}

/// How many pairs carry the given name.
pub open spec fn key_count(pairs: Seq<(Seq<char>, Seq<char>)>, key: Seq<char>) -> nat
    decreases pairs.len(),
{
    if pairs.len() == 0 {
        0
    } else {
        key_count(pairs.drop_last(), key) + if pairs.last().0 == key {
            1nat
        } else {
            0nat
        }
    }
}

/// The value of the last pair that carries the given name (empty if none does).
pub open spec fn last_value(pairs: Seq<(Seq<char>, Seq<char>)>, key: Seq<char>) -> Seq<char>
    decreases pairs.len(),
{
    if pairs.len() == 0 {
        Seq::empty()
    } else if pairs.last().0 == key {
        pairs.last().1
    } else {
        last_value(pairs.drop_last(), key)
    }
}

/// The value of a required field: it must occur exactly once, with a
/// non-empty value.
pub open spec fn field_of(pairs: Seq<(Seq<char>, Seq<char>)>, f: Field) -> Result<
    Seq<char>,
    FormError,
> {
    let k = key_count(pairs, field_key(f));
    if k == 0 {
        Err(FormError::Missing(f))
    } else if k > 1 {
        Err(FormError::Duplicate(f))
    } else if last_value(pairs, field_key(f)).len() == 0 {
        Err(FormError::Empty(f))
    } else {
        Ok(last_value(pairs, field_key(f)))
    }
}

/// The submission that a media type and the decoded pairs of a body make:
/// (email, name), or the first problem found, the media type first, then
/// the email field, then the name field. Other names are ignored.
pub open spec fn form_of(media_ok: bool, pairs: Seq<(Seq<char>, Seq<char>)>) -> Result<
    (Seq<char>, Seq<char>),
    FormError,
> {
    if !media_ok {
        Err(FormError::UnsupportedContentType)
    } else {
        match field_of(pairs, Field::Email) {
            Err(e) => Err(e),
            Ok(email) => match field_of(pairs, Field::Name) {
                Err(e) => Err(e),
                Ok(name) => Ok((email, name)),
            },
        }
    }
}

/// Whether `r` is the outcome that `form_of` describes.
pub open spec fn form_result_is(
    r: Result<FormData, FormError>,
    expected: Result<(Seq<char>, Seq<char>), FormError>,
) -> bool {
    match expected {
        Ok((email, name)) => r is Ok && r->Ok_0.email@ == email && r->Ok_0.name@ == name,
        Err(e) => r is Err && r->Err_0 == e,
    }
}

/// Whether a media type (without parameters) names form-urlencoded content,
/// ignoring the case of ASCII letters.
pub fn is_form_content_type(media_type: &str) -> (r: bool)
    ensures
        r == eq_ignoring_ascii_case(media_type@, form_media_type()),
{
    proof {
        reveal_strlit("application/x-www-form-urlencoded");
    }
    assert("application/x-www-form-urlencoded"@ =~= form_media_type());
    same_text_ignoring_ascii_case(media_type, "application/x-www-form-urlencoded")
}

/// Looks a required field up among the pairs.
fn find_field(pairs: &Vec<(String, String)>, f: Field) -> (r: Result<String, FormError>)
    ensures
        match field_of(pairs_view(pairs@), f) {
            Ok(v) => r is Ok && r->Ok_0@ == v,
            Err(e) => r is Err && r->Err_0 == e,
        },
{
    let key: &str = match f {
        Field::Email => "email",
        Field::Name => "name",
    };
    proof {
        reveal_strlit("email");
        reveal_strlit("name");
    }
    assert(key@ =~= field_key(f));
    let ghost pv = pairs_view(pairs@);
    let mut count: usize = 0;
    let mut value = String::new();
    let mut i: usize = 0;
    while i < pairs.len()
        invariant
            pv == pairs_view(pairs@),
            key@ == field_key(f),
            i <= pairs@.len(),
            count == key_count(pv.take(i as int), field_key(f)),
            count <= i,
            value@ == last_value(pv.take(i as int), field_key(f)),
        decreases pairs@.len() - i,
    {
        assert(pv.take(i as int + 1).drop_last() =~= pv.take(i as int));
        if same_text(pairs[i].0.as_str(), key) {
            count = count + 1;
            value = pairs[i].1.clone();
        }
        i = i + 1;
    }
    assert(pv.take(i as int) =~= pv);
    if count == 0 {
        Err(FormError::Missing(f))
    } else if count > 1 {
        Err(FormError::Duplicate(f))
    } else if value.as_str().unicode_len() == 0 {
        Err(FormError::Empty(f))
    } else {
        Ok(value)
    }
}

/// Decodes a submission from the media type of a request and the pairs of
/// its body.
pub fn decode_form(media_type: &str, pairs: &Vec<(String, String)>) -> (r: Result<
    FormData,
    FormError,
>)
    ensures
        form_result_is(
            r,
            form_of(eq_ignoring_ascii_case(media_type@, form_media_type()), pairs_view(pairs@)),
        ),
        r is Ok ==> r->Ok_0.wf(),
{
    if !is_form_content_type(media_type) {
        return Err(FormError::UnsupportedContentType);
    }
    let email = match find_field(pairs, Field::Email) {
        Ok(v) => v,
        Err(e) => {
            return Err(e);
        },
    };
    let name = match find_field(pairs, Field::Name) {
        Ok(v) => v,
        Err(e) => {
            return Err(e);
        },
    };
    Ok(FormData { email, name })
}

/// Reads a submission from the media type and the raw body of a request.
/// The body is not looked at when the media type is wrong.
pub fn read_form(media_type: &str, body: &[u8]) -> (r: Result<FormData, FormError>)
    ensures
        form_result_is(
            r,
            form_of(eq_ignoring_ascii_case(media_type@, form_media_type()), form_pairs(body@)),
        ),
        r is Ok ==> r->Ok_0.wf(),
{
    if !is_form_content_type(media_type) {
        return Err(FormError::UnsupportedContentType);
    }
    let pairs = parse_pairs(body);
    decode_form(media_type, &pairs)
}

} // verus!
