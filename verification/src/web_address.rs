use vstd::prelude::*;

verus! {

#[verifier::external_type_specification]
#[verifier::external_body]
pub struct ExParseError(url::ParseError);

/// The normal form of a URL that parses, `None` for a text that does not.
pub uninterp spec fn parsed_url(text: Seq<char>) -> Option<Seq<char>>;

/// The URL `url` after an attempt to give it the scheme `scheme`; the URL
/// stays as it was where it cannot have that scheme.
pub uninterp spec fn url_with_scheme(url: Seq<char>, scheme: Seq<char>) -> Seq<char>;

/// The URL `url` after an attempt to give it the port `port`; the URL stays
/// as it was where it cannot have a port.
pub uninterp spec fn url_with_port(url: Seq<char>, port: u16) -> Seq<char>;

/// `url::Url::parse`: the text of the parsed URL in its normal form, or the
/// parser's error. Which of the two, and the text, depend on the input alone.
#[verifier::external_body]
pub(crate) fn parse_url(text: &str) -> (r: Result<String, url::ParseError>)
    ensures
        r is Ok <==> parsed_url(text@) is Some,
        r matches Ok(s) ==> parsed_url(text@) == Some(s@),
{
    match url::Url::parse(text) {
        Ok(u) => Ok(u.into()),
        Err(e) => Err(e),
    }
}

/// The length, in characters, from which on a URL or a scheme is too long
/// for the setters: they keep positions in 32 bits and do not return where a
/// position overflows. Below it, a URL and a scheme together stay in range.
pub const URL_TEXT_LIMIT: usize = 0x1000_0000;

/// `url::Url::set_scheme` on the URL with the text `url`, whose outcome is
/// not looked at: the text afterwards. The text is parsed back first, and a
/// text that is no URL comes back as it is. URLs and schemes from
/// `URL_TEXT_LIMIT` characters on are left out.
#[verifier::external_body]
pub(crate) fn set_scheme(url: String, scheme: &str) -> (r: String)
    requires
        url@.len() < URL_TEXT_LIMIT,
        scheme@.len() < URL_TEXT_LIMIT,
    ensures
        r@ == url_with_scheme(url@, scheme@),
{
    match url::Url::parse(&url) {
        Ok(mut u) => {
            let _ = u.set_scheme(scheme);
            u.into()
        },
        Err(_) => url,
    }
}

/// `url::Url::set_port` on the URL with the text `url`, whose outcome is not
/// looked at: the text afterwards. The text is parsed back first, and a text
/// that is no URL comes back as it is. URLs from `URL_TEXT_LIMIT` characters
/// on are left out.
#[verifier::external_body]
pub(crate) fn set_port(url: String, port: u16) -> (r: String)
    requires
        url@.len() < URL_TEXT_LIMIT,
    ensures
        r@ == url_with_port(url@, port),
{
    match url::Url::parse(&url) {
        Ok(mut u) => {
            let _ = u.set_port(Some(port));
            u.into()
        },
        Err(_) => url,
    }
}

} // verus!
