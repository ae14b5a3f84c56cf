//! Form primitives: select options, textarea sizing, search box ids, and
//! the profile change request with its review by the school manager.

use vstd::prelude::*;
use crate::text::{replace_all, replace_text};

verus! {

/// An option of a select field.
pub struct SelectOption {
    pub value: String,
    pub label: String,
}

impl SelectOption {
    pub fn new(value: String, label: String) -> (res: Self)
        ensures
            res.value@ == value@ && res.label@ == label@,
    {
        SelectOption { value, label }
    }
}

/// A textarea's row count held to 1..=255.
pub fn textarea_rows(rows: Option<i32>) -> (res: Option<u8>)
    ensures
        match rows {
            Some(r) => res matches Some(x) && x as int == (if r < 1 { 1 } else if r > 255 { 255 } else { r as int }),
            None => res.is_none(),
        },
{
    match rows {
        Some(r) => Some(if r < 1 {
            1u8
        } else if r > 255 {
            255u8
        } else {
            r as u8
        }),
        None => None,
    }
}

/// A lower-case hexadecimal digit.
pub open spec fn is_lower_hex(c: char) -> bool {
    ('0' <= c <= '9') || ('a' <= c <= 'f')
}

/// The text of a random version-4 UUID in the simple format: 32 lower-case
/// hexadecimal digits, the version digit `4` at index 12 and the variant
/// digit, one of `8`, `9`, `a`, `b`, at index 16.
pub open spec fn is_simple_v4(u: Seq<char>) -> bool {
    &&& u.len() == 32
    &&& forall|i: int| 0 <= i < 32 ==> is_lower_hex(#[trigger] u[i])
    &&& u[12] == '4'
    &&& (u[16] == '8' || u[16] == '9' || u[16] == 'a' || u[16] == 'b')
}

/// `uuid`'s `Uuid::new_v4().simple()` as text: a random UUID whose version
/// and variant bits `new_v4` fixes (version 4, RFC 9562 variant), written
/// as 32 lower-case hexadecimal digits without hyphens, as the crate
/// documents its simple format. The other digits are random: nothing more
/// is stated of them.
#[verifier::external_body]
fn random_uuid_simple() -> (res: String)
    ensures
        is_simple_v4(res@),
{
    uuid::Uuid::new_v4().simple().to_string()
}

/// The id of a search box for the UUID text `uuid_hex`: `et-search-` and
/// the text.
pub fn search_id_for(uuid_hex: &str) -> (res: String)
    ensures
        res@ == "et-search-"@ + uuid_hex@,
{
    crate::text::concat("et-search-", uuid_hex)
}

/// A fresh id for a search box: `et-search-` and a random version-4 UUID
/// in the simple format.
pub fn search_input_id() -> (res: String)
    ensures
        res@.len() == 42,
        res@.subrange(0, 10) == "et-search-"@,
        is_simple_v4(res@.subrange(10, 42)),
{
    let u = random_uuid_simple();
    let s = search_id_for(u.as_str());
    proof {
        reveal_strlit("et-search-");
        assert(s@.subrange(0, 10) =~= "et-search-"@);
        assert(s@.subrange(10, 42) =~= u@);
    }
    s
}

/// The clear button of a search box appears only with text to clear.
pub fn search_shows_clear(value: &str) -> (res: bool)
    ensures
        res == (value@.len() > 0),
{
    !value.is_empty()
}

/// Why a profile change request was not sent.
#[derive(PartialEq, Eq, Structural, Clone, Copy, Debug)]
pub enum ProfileRequestError {
    /// No session token is stored.
    NoToken,
    /// The server refused the request.
    Failed,
}

/// A request to change one's name and email, reviewed by the school.
pub struct ProfileRequestForm {
    pub name: String,
    pub email: String,
    pub submitting: bool,
    /// The error line's text.
    pub error: Option<String>,
}

impl ProfileRequestForm {
    /// The form opens with the current name and email.
    pub fn open(name: &str, email: &str) -> (res: Self)
        ensures
            res.name@ == name@ && res.email@ == email@ && !res.submitting && res.error.is_none(),
    {
        ProfileRequestForm { name: name.to_owned(), email: email.to_owned(), submitting: false, error: None }
    }

    /// "Submit" with the stored session token, if any: without one the
    /// translated "no token" text is shown; else the name and email go out.
    pub fn submit(&mut self, token: Option<String>, no_token_text: &str) -> (res: Option<(String, String, String)>)
        ensures
            token.is_none() ==> (final(self).error matches Some(e) && e@ == no_token_text@ && res.is_none()
                && !final(self).submitting),
            token matches Some(t) ==> (res matches Some((rt, n, m)) && rt@ == t@ && n@ == old(self).name@ && m@
                == old(self).email@ && final(self).submitting && final(self).error.is_none()),
            final(self).name == old(self).name && final(self).email == old(self).email,
    {
        self.error = None;
        match token {
            None => {
                self.error = Some(no_token_text.to_owned());
                self.submitting = false;
                None
            },
            Some(t) => {
                self.submitting = true;
                Some((t, self.name.clone(), self.email.clone()))
            },
        }
    }

    /// The server's answer; a failure shows the translated template with
    /// `{0}` replaced by the error. Returns whether the form is done.
    pub fn finished(&mut self, failure: Option<String>, failed_template: &str) -> (done: bool)
        ensures
            done == failure.is_none(),
            !final(self).submitting,
            failure matches Some(e) ==> (final(self).error matches Some(m) && m@ == replace_all(
                failed_template@,
                "{0}"@,
                e@,
            )),
    {
        self.submitting = false;
        match failure {
            None => true,
            Some(e) => {
                proof {
                    reveal_strlit("{0}");
                }
                self.error = Some(replace_text(failed_template, "{0}", e.as_str()));
                false
            },
        }
    }
}

/// A translated template with `{0}` replaced, as the requests list uses
/// for its success, failure, "requested by" and load-error lines.
pub fn fill_template(template: &str, value: &str) -> (res: String)
    ensures
        res@ == replace_all(template@, "{0}"@, value@),
{
    proof {
        reveal_strlit("{0}");
    }
    replace_text(template, "{0}", value)
}

} // verus!
