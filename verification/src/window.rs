use crate::error::StftError;
use vstd::prelude::*;
use vstd::utf8::is_ascii_chars;

verus! {

/// The apodization window applied to each frame before it is transformed.
#[derive(Clone, Copy, PartialEq, Eq, PartialOrd, Ord, Debug, Hash, Structural)]
pub enum WindowType {
    Hanning,
    Hamming,
    Blackman,
    Nuttall,
    /// No tapering. Its name in text is `None`.
    Rectangular,
}

/// What `str::to_lowercase` makes of a string that holds a character outside ASCII.
pub uninterp spec fn unicode_lowercase(s: Seq<char>) -> Seq<char>;

/// `c` with the letters `A` to `Z` mapped to `a` to `z`.
pub open spec fn ascii_lowercase_char(c: char) -> char {
    if 'A' <= c <= 'Z' {
        ((c as u8) + 32) as char
    } else {
        c
    }
}

/// `s` with each of the letters `A` to `Z` mapped to its lowercase form.
pub open spec fn ascii_lowercase(s: Seq<char>) -> Seq<char> {
    Seq::new(s.len(), |i: int| ascii_lowercase_char(s[i]))
}

/// The lowercase form of `s`.
pub open spec fn lowercase(s: Seq<char>) -> Seq<char> {
    if is_ascii_chars(s) {
        ascii_lowercase(s)
    } else {
        unicode_lowercase(s)
    }
}

/// The lowercase form of `s`, as `str::to_lowercase` computes it.
///
/// On a string of ASCII characters only the letters `A` to `Z` change, each
/// to its lowercase letter. Of any other string the contract only names the
/// result.
#[verifier::external_body]
fn to_lowercase(s: &str) -> (r: String)
    ensures
        is_ascii_chars(s@) ==> r@ == ascii_lowercase(s@),
        !is_ascii_chars(s@) ==> r@ == unicode_lowercase(s@),
{
    s.to_lowercase()
}

impl WindowType {
    /// Every window type, in declaration order.
    pub open spec fn all() -> Seq<WindowType> {
        seq![
            WindowType::Hanning,
            WindowType::Hamming,
            WindowType::Blackman,
            WindowType::Nuttall,
            WindowType::Rectangular,
        ]
    }

    /// The canonical name of this window type.
    pub open spec fn display_name(self) -> Seq<char> {
        match self {
            WindowType::Hanning => "Hanning"@,
            WindowType::Hamming => "Hamming"@,
            WindowType::Blackman => "Blackman"@,
            WindowType::Nuttall => "Nuttall"@,
            WindowType::Rectangular => "None"@,
        }
    }

    /// The window type that the lowercase name `lower` stands for.
    pub open spec fn named(lower: Seq<char>) -> Option<WindowType> {
        if lower == "hanning"@ || lower == "hann"@ {
            Some(WindowType::Hanning)
        } else if lower == "hamming"@ {
            Some(WindowType::Hamming)
        } else if lower == "blackman"@ {
            Some(WindowType::Blackman)
        } else if lower == "nuttall"@ {
            Some(WindowType::Nuttall)
        } else if lower == "none"@ {
            Some(WindowType::Rectangular)
        } else {
            None
        }
    }

    /// The window type that `text` stands for, whatever its case.
    pub open spec fn parsed(text: Seq<char>) -> Option<WindowType> {
        WindowType::named(lowercase(text))
    }

    pub fn values() -> (r: [WindowType; 5])
        ensures
            r@ == WindowType::all(),
    {
        let r = [
            WindowType::Hanning,
            WindowType::Hamming,
            WindowType::Blackman,
            WindowType::Nuttall,
            WindowType::Rectangular,
        ];
        assert(r@ =~= WindowType::all());
        r
    }

    /// The canonical name of this window type.
    pub fn to_string(&self) -> (r: String)
        ensures
            r@ == self.display_name(),
    {
        match self {
            WindowType::Hanning => "Hanning".to_owned(),
            WindowType::Hamming => "Hamming".to_owned(),
            WindowType::Blackman => "Blackman".to_owned(),
            WindowType::Nuttall => "Nuttall".to_owned(),
            WindowType::Rectangular => "None".to_owned(),
        }
    }

    /// Looks up a name that is already in lowercase.
    pub fn from_lowercase(lower: &str) -> (r: Result<WindowType, StftError>)
        ensures
            r == match WindowType::named(lower@) {
                Some(window_type) => Ok::<WindowType, StftError>(window_type),
                None => Err::<WindowType, StftError>(StftError::UnrecognizedWindowName),
            },
    {
        let lower = lower.to_owned();
        if lower == "hanning".to_owned() || lower == "hann".to_owned() {
            Ok(WindowType::Hanning)
        } else if lower == "hamming".to_owned() {
            Ok(WindowType::Hamming)
        } else if lower == "blackman".to_owned() {
            Ok(WindowType::Blackman)
        } else if lower == "nuttall".to_owned() {
            Ok(WindowType::Nuttall)
        } else if lower == "none".to_owned() {
            Ok(WindowType::Rectangular)
        } else {
            Err(StftError::UnrecognizedWindowName)
        }
    }

    /// Parses the name of a window type, ignoring case.
    pub fn from_str(text: &str) -> (r: Result<WindowType, StftError>)
        ensures
            r == match WindowType::parsed(text@) {
                Some(window_type) => Ok::<WindowType, StftError>(window_type),
                None => Err::<WindowType, StftError>(StftError::UnrecognizedWindowName),
            },
    {
        let lower = to_lowercase(text);
        WindowType::from_lowercase(lower.as_str())
    }
}

/// Parsing the canonical name of a window type gives that window type back.
pub proof fn lemma_parse_display_name(window_type: WindowType)
    ensures
        WindowType::parsed(window_type.display_name()) == Some(window_type),
{
    reveal_strlit("Hanning");
    reveal_strlit("Hamming");
    reveal_strlit("Blackman");
    reveal_strlit("Nuttall");
    reveal_strlit("None");
    reveal_strlit("hanning");
    reveal_strlit("hann");
    reveal_strlit("hamming");
    reveal_strlit("blackman");
    reveal_strlit("nuttall");
    reveal_strlit("none");
    let name = window_type.display_name();
    assert(is_ascii_chars(name));
    let lower = ascii_lowercase(name);
    match window_type {
        WindowType::Hanning => {
            assert(lower =~= "hanning"@);
        },
        WindowType::Hamming => {
            assert(lower =~= "hamming"@);
            assert(lower[2] != "hanning"@[2]);
        },
        WindowType::Blackman => {
            assert(lower =~= "blackman"@);
            assert(lower[0] != "hanning"@[0]);
            assert(lower[0] != "hamming"@[0]);
        },
        WindowType::Nuttall => {
            assert(lower =~= "nuttall"@);
            assert(lower[0] != "hanning"@[0]);
            assert(lower[0] != "hamming"@[0]);
        },
        WindowType::Rectangular => {
            assert(lower =~= "none"@);
            assert(lower[0] != "hann"@[0]);
        },
    }
}

/// The alias `hann` stands for the Hanning window, however its letters are
/// cased.
pub proof fn lemma_hann_is_hanning(text: Seq<char>)
    requires
        is_ascii_chars(text),
        ascii_lowercase(text) == "hann"@,
    ensures
        WindowType::parsed(text) == Some(WindowType::Hanning),
        WindowType::parsed(text) == WindowType::parsed(WindowType::Hanning.display_name()),
{
    lemma_parse_display_name(WindowType::Hanning);
}

/// Two ASCII names that differ only in the case of their letters parse alike.
pub proof fn lemma_parse_ignores_case(a: Seq<char>, b: Seq<char>)
    requires
        is_ascii_chars(a),
        is_ascii_chars(b),
        ascii_lowercase(a) == ascii_lowercase(b),
    ensures
        WindowType::parsed(a) == WindowType::parsed(b),
{
}

impl std::str::FromStr for WindowType {
    type Err = StftError;

    /// Parses the name of a window type, ignoring case.
    fn from_str(text: &str) -> (r: Result<WindowType, StftError>)
        ensures
            r == match WindowType::parsed(text@) {
                Some(window_type) => Ok::<WindowType, StftError>(window_type),
                None => Err::<WindowType, StftError>(StftError::UnrecognizedWindowName),
            },
    {
        WindowType::from_str(text)
    }
}

} // verus!
