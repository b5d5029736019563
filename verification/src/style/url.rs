//! Links to resources.

use vstd::prelude::*;
use super::IntoCss;

verus! {

/// `url::ParseError`, the reason that the parser of the `url` crate
/// gives for turning a text down. Nothing is claimed of its values.
#[verifier::external_type_specification]
#[verifier::external_body]
pub struct ExParseError(url::ParseError);

/// What `url::Url::parse` makes of a text: the serialization of the
/// absolute URL that it reads there, or nothing where it reads none.
pub uninterp spec fn absolute_url(input: Seq<char>) -> Option<Seq<char>>;

/// Calls `url::Url::parse` and, where that succeeds, takes the
/// serialization out of the parsed URL with its `From<Url> for String`.
/// The contract claims only that the outcome is the one that
/// `absolute_url` names for this input.
#[verifier::external_body]
fn parse_absolute(input: &str) -> (outcome: Result<String, url::ParseError>)
    ensures
        match outcome {
            Ok(serialization) => absolute_url(input@) == Some(serialization@),
            Err(_) => absolute_url(input@) is None,
        },
{
    match url::Url::parse(input) {
        Ok(parsed) => Ok(String::from(parsed)),
        Err(error) => Err(error),
    }
}

/// The text was not an absolute URL.
#[derive(Clone, Copy, Debug, PartialEq, Eq, Structural)]
pub struct InvalidUrl;

/// An absolute URL, held as its serialization.
#[derive(Debug, PartialEq, Eq)]
pub struct Url {
    serialization: String,
}

impl View for Url {
    type V = Seq<char>;

    closed spec fn view(&self) -> Seq<char> {
        self.serialization@
    }
}

impl Url {
    /// Reads an absolute URL. The result holds the serialization of the
    /// URL, which may differ from the input: the parser normalizes.
    pub fn parse(input: &str) -> (outcome: Result<Url, InvalidUrl>)
        ensures
            match absolute_url(input@) {
                Some(serialization) => outcome is Ok && outcome->Ok_0@ == serialization,
                None => outcome == Err::<Url, InvalidUrl>(InvalidUrl),
            },
    {
        match parse_absolute(input) {
            Ok(serialization) => Ok(Url { serialization }),
            Err(_) => Err(InvalidUrl),
        }
    }

    /// The serialization of the URL.
    pub fn as_str(&self) -> (text: &str)
        ensures
            text@ == self@,
    {
        self.serialization.as_str()
    }

    /// The text of the URL as a declaration value, without taking the
    /// URL apart.
    pub fn render(&self) -> (text: String)
        ensures
            text@ == self.css(),
    {
        let mut text = String::from_str("url(\"");
        text.append(self.serialization.as_str());
        text.append("\")");
        text
    }
}

impl Clone for Url {
    fn clone(&self) -> (copy: Self)
        ensures
            copy == *self,
    {
        Url { serialization: self.serialization.clone() }
    }
}

impl IntoCss for Url {
    open spec fn renderable(&self) -> bool {
        true
    }

    open spec fn css(&self) -> Seq<char> {
        "url(\""@ + self@ + "\")"@
    }

    fn into_css(self) -> (text: String) {
        self.render()
    }
}

/// The text of a link is never empty: it holds at least the call that
/// wraps the address.
pub proof fn lemma_url_text_nonempty(link: Url)
    ensures
        link.css().len() > 0,
{
    reveal_strlit("url(\"");
}

} // verus!
