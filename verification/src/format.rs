//! The codec table: the output formats that a request may name, by what tag
//! each is named and how each codec hands over its output.

use vstd::prelude::*;

use crate::error::CustomError;

verus! {

/// An output format. The set is closed: a request that names anything else is
/// turned down before any other work is done.
#[derive(Debug, Clone, Copy, PartialEq, Eq, Structural)]
pub enum Format {
    Avif,
    Heic,
    Jxl,
    Qoi,
}

/// How a codec hands over what it has encoded.
#[derive(Debug, Clone, Copy, PartialEq, Eq, Structural)]
pub enum OutputConvention {
    /// The codec returns the encoded bytes; storing them is a later step.
    ReturnsBytes,
    /// The codec writes the destination itself; nothing is left to store.
    WritesToDestination,
}

/// Speed preset of the AVIF encoder.
pub const AVIF_SPEED: u8 = 8;

/// Quality preset of the AVIF encoder.
pub const AVIF_QUALITY: u8 = 85;

/// Lossy quality preset of the HEIC encoder.
pub const HEIC_QUALITY: u8 = 85;

/// A name for what `str::to_lowercase` returns for a given text.
pub uninterp spec fn lowercase_of(text: Seq<char>) -> Seq<char>;

/// Calls `str::to_lowercase`, which maps each character to its lowercase
/// equivalent as Unicode defines it. The result depends on the text alone;
/// the contract gives it a name and claims nothing else of it.
#[verifier::external_body]
fn to_lowercase(text: &str) -> (lower: String)
    ensures
        lower@ == lowercase_of(text@),
{
    text.to_lowercase()
}

impl Format {
    /// The tag by which a format is named in requests and in blob names.
    pub open spec fn tag_of(self) -> Seq<char> {
        match self {
            Format::Avif => "avif"@,
            Format::Heic => "heic"@,
            Format::Jxl => "jxl"@,
            Format::Qoi => "qoi"@,
        }
    }

    /// The format that `tag` names exactly, if it names one: the format
    /// whose tag it spells, character by character.
    pub open spec fn with_tag(tag: Seq<char>) -> Option<Format> {
        if tag.len() == 4 && tag[0] == 'a' && tag[1] == 'v' && tag[2] == 'i' && tag[3] == 'f' {
            Some(Format::Avif)
        } else if tag.len() == 4 && tag[0] == 'h' && tag[1] == 'e' && tag[2] == 'i' && tag[3]
            == 'c' {
            Some(Format::Heic)
        } else if tag.len() == 3 && tag[0] == 'j' && tag[1] == 'x' && tag[2] == 'l' {
            Some(Format::Jxl)
        } else if tag.len() == 3 && tag[0] == 'q' && tag[1] == 'o' && tag[2] == 'i' {
            Some(Format::Qoi)
        } else {
            None
        }
    }

    /// How the codec of a format hands over its output.
    pub open spec fn convention_of(self) -> OutputConvention {
        match self {
            Format::Heic => OutputConvention::WritesToDestination,
            _ => OutputConvention::ReturnsBytes,
        }
    }

    pub fn tag(&self) -> (tag: &'static str)
        ensures
            tag@ == self.tag_of(),
    {
        match self {
            Format::Avif => "avif",
            Format::Heic => "heic",
            Format::Jxl => "jxl",
            Format::Qoi => "qoi",
        }
    }

    /// Looks a tag up in the table. The match is exact: no trimming, no
    /// change of case.
    pub fn from_tag(tag: &str) -> (format: Option<Format>)
        ensures
            format == Format::with_tag(tag@),
    {
        proof {
            lemma_tags_name_their_formats(tag@, Format::Avif);
            lemma_tags_name_their_formats(tag@, Format::Heic);
            lemma_tags_name_their_formats(tag@, Format::Jxl);
            lemma_tags_name_their_formats(tag@, Format::Qoi);
        }
        let owned = tag.to_owned();
        if owned == "avif".to_string() {
            Some(Format::Avif)
        } else if owned == "heic".to_string() {
            Some(Format::Heic)
        } else if owned == "jxl".to_string() {
            Some(Format::Jxl)
        } else if owned == "qoi".to_string() {
            Some(Format::Qoi)
        } else {
            None
        }
    }

    pub fn output_convention(&self) -> (convention: OutputConvention)
        ensures
            convention == self.convention_of(),
    {
        match self {
            Format::Heic => OutputConvention::WritesToDestination,
            _ => OutputConvention::ReturnsBytes,
        }
    }

    /// Whether the codec keeps every pixel as it is. Only QOI does.
    pub fn is_lossless(&self) -> (lossless: bool)
        ensures
            lossless == (*self == Format::Qoi),
    {
        match self {
            Format::Qoi => true,
            _ => false,
        }
    }
}

/// The format that a request asks for: the one whose tag is the lowercase of
/// the text given, or the configured default where the request names none.
pub open spec fn resolved_format(lowered: Option<Seq<char>>, default_format: Option<Format>)
    -> Option<Format> {
    match lowered {
        Some(tag) => Format::with_tag(tag),
        None => default_format,
    }
}

/// Resolves the format of a request from its lowercased tag. This is
/// `resolve_format` after the lowercasing.
pub fn resolve_lowered(lowered: Option<&str>, default_format: Option<Format>) -> (result: Result<
    Format,
    CustomError,
>)
    ensures
        match resolved_format(
            match lowered {
                Some(tag) => Some(tag@),
                None => None,
            },
            default_format,
        ) {
            Some(format) => result == Ok::<Format, CustomError>(format),
            None => result == Err::<Format, CustomError>(CustomError::UnsupportedFormat),
        },
{
    let found = match lowered {
        Some(tag) => Format::from_tag(tag),
        None => default_format,
    };
    match found {
        Some(format) => Ok(format),
        None => Err(CustomError::UnsupportedFormat),
    }
}

/// Resolves the format that a request names. The text is lowercased and must
/// then be one of the four tags; a request that names no format gets
/// `default_format`, and is turned down where none is configured.
pub fn resolve_format(requested: Option<&str>, default_format: Option<Format>) -> (result: Result<
    Format,
    CustomError,
>)
    ensures
        match resolved_format(
            match requested {
                Some(text) => Some(lowercase_of(text@)),
                None => None,
            },
            default_format,
        ) {
            Some(format) => result == Ok::<Format, CustomError>(format),
            None => result == Err::<Format, CustomError>(CustomError::UnsupportedFormat),
        },
{
    match requested {
        Some(text) => {
            let lower = to_lowercase(text);
            resolve_lowered(Some(lower.as_str()), default_format)
        },
        None => resolve_lowered(None, default_format),
    }
}

/// The table is exact: a text names a format if and only if it is the tag of
/// that format. So each format is found again by its own tag, and no two
/// formats share a tag.
pub proof fn lemma_tags_name_their_formats(tag: Seq<char>, format: Format)
    ensures
        Format::with_tag(tag) == Some(format) <==> tag == format.tag_of(),
        Format::with_tag(format.tag_of()) == Some(format),
{
    reveal_strlit("avif");
    reveal_strlit("heic");
    reveal_strlit("jxl");
    reveal_strlit("qoi");
    let own = format.tag_of();
    assert(Format::with_tag(own) == Some(format));
    if Format::with_tag(tag) == Some(format) {
        assert(tag =~= own);
    }
}

/// A request that names a format is served if and only if the lowercase of
/// what it names is one of the four tags; whatever else it names, it is
/// turned down as an unsupported format whether or not a default is set.
pub proof fn lemma_unknown_format_is_unsupported(text: Seq<char>, default_format: Option<Format>)
    ensures
        resolved_format(Some(lowercase_of(text)), default_format) is None <==> {
            &&& lowercase_of(text) != Format::Avif.tag_of()
            &&& lowercase_of(text) != Format::Heic.tag_of()
            &&& lowercase_of(text) != Format::Jxl.tag_of()
            &&& lowercase_of(text) != Format::Qoi.tag_of()
        },
{
    let lowered = lowercase_of(text);
    lemma_tags_name_their_formats(lowered, Format::Avif);
    lemma_tags_name_their_formats(lowered, Format::Heic);
    lemma_tags_name_their_formats(lowered, Format::Jxl);
    lemma_tags_name_their_formats(lowered, Format::Qoi);
}

} // verus!
