use vstd::prelude::*;
use vstd::std_specs::iter::IteratorSpec;
use vstd::string::*;

verus! {

/// Longest accepted key, in characters.
pub const MAX_LENGTH: usize = 255;

/// Whether `c` is alphanumeric in the Unicode sense (`char::is_alphanumeric`).
pub uninterp spec fn alphanumeric(c: char) -> bool;

/// Relies on `char::is_alphanumeric`: the answer depends on the character alone.
#[verifier::external_body]
fn is_alphanumeric(c: char) -> (r: bool)
    ensures
        r == alphanumeric(c),
{
    c.is_alphanumeric()
}

/// A character that may stand in a key.
pub open spec fn allowed_char(c: char) -> bool {
    alphanumeric(c) || c == '-' || c == '_'
}

/// The first rule that `s` breaks, in the order empty, too long, bad character;
/// `None` when `s` is a valid key.
pub open spec fn key_error(s: Seq<char>) -> Option<KeyError> {
    if s.len() == 0 {
        Some(KeyError::Empty)
    } else if s.len() > MAX_LENGTH {
        Some(KeyError::TooLong)
    } else if exists|i: int| 0 <= i < s.len() && !allowed_char(#[trigger] s[i]) {
        Some(KeyError::InvalidCharacters)
    } else {
        None
    }
}

/// A validated identifier: non-empty, at most `MAX_LENGTH` characters, made of
/// alphanumeric characters, `-` and `_`.
#[derive(Debug, Clone, PartialEq, Eq, Hash)]
pub struct Key(String);

/// Why a string is not a valid key. `Whitespace` is part of the taxonomy but is
/// never produced: whitespace is already refused as an invalid character.
#[derive(Debug, Clone, Copy, PartialEq, Eq, Structural)]
pub enum KeyError {
    Empty,
    TooLong,
    InvalidCharacters,
    Whitespace,
}

impl View for Key {
    type V = Seq<char>;

    closed spec fn view(&self) -> Seq<char> {
        self.0@
    }
}

impl Key {
    /// The key that holds `s` as its text.
    pub closed spec fn wrap(s: String) -> Key {
        Key(s)
    }

    /// Every key satisfies the validation rules.
    pub open spec fn wf(&self) -> bool {
        key_error(self@) is None
    }

    /// Validates `s` and wraps it; the error is the first rule that `s` breaks.
    pub fn new(s: String) -> (r: Result<Key, KeyError>)
        ensures
            match r {
                Ok(k) => key_error(s@) is None && k@ == s@ && k.wf() && k == Key::wrap(s),
                Err(e) => key_error(s@) == Some(e),
            },
    {
        let st = s.as_str();
        if st.is_empty() {
            return Err(KeyError::Empty);
        }
        if st.unicode_len() > MAX_LENGTH {
            return Err(KeyError::TooLong);
        }
        let mut all_allowed = true;
        for c in it: st.chars()
            invariant
                it.seq() == s@,
                all_allowed <==> forall|j: int| 0 <= j < it.index() ==> allowed_char(#[trigger] s@[j]),
        {
            let ok = is_alphanumeric(c) || c == '-' || c == '_';
            all_allowed = all_allowed && ok;
        }
        if !all_allowed {
            return Err(KeyError::InvalidCharacters);
        }
        Ok(Key(s))
    }

    /// A second key with the same text.
    pub(crate) fn copy(&self) -> (r: Key)
        ensures
            r == *self,
    {
        Key(self.0.clone())
    }

    /// The key's text.
    pub fn as_str(&self) -> (r: &str)
        ensures
            r@ == self@,
    {
        self.0.as_str()
    }

    /// The key's text, taking the key.
    pub fn into_string(self) -> (r: String)
        ensures
            r@ == self@,
            Key::wrap(r) == self,
    {
        self.0
    }
}

impl TryFrom<String> for Key {
    type Error = KeyError;

    fn try_from(value: String) -> (r: Result<Key, KeyError>) {
        Key::new(value)
    }
}

impl vstd::std_specs::convert::TryFromSpecImpl<String> for Key {
    open spec fn obeys_try_from_spec() -> bool {
        true
    }

    open spec fn try_from_spec(v: String) -> Result<Key, KeyError> {
        match key_error(v@) {
            None => Ok(Key::wrap(v)),
            Some(e) => Err(e),
        }
    }
}

impl From<Key> for String {
    fn from(key: Key) -> (r: String)
        ensures
            r@ == key@,
            Key::wrap(r) == key,
    {
        key.0
    }
}

impl vstd::std_specs::convert::FromSpecImpl<Key> for String {
    open spec fn obeys_from_spec() -> bool {
        true
    }

    closed spec fn from_spec(key: Key) -> String {
        key.0
    }
}

impl KeyError {
    /// The human-readable description of the error.
    pub fn to_string(&self) -> (r: String)
        ensures
            r@ == key_error_message(*self),
    {
        match self {
            KeyError::Empty => String::from_str("Key cannot be empty"),
            KeyError::TooLong => String::from_str("Key exceeds maximum length of 255 characters"),
            KeyError::InvalidCharacters => String::from_str(
                "Key contains invalid characters (only a-z, A-Z, 0-9, _, - allowed)",
            ),
            KeyError::Whitespace => String::from_str(
                "Key cannot have leading or trailing whitespace",
            ),
        }
    }
}

/// The description of each validation error.
pub open spec fn key_error_message(e: KeyError) -> Seq<char> {
    match e {
        KeyError::Empty => "Key cannot be empty"@,
        KeyError::TooLong => "Key exceeds maximum length of 255 characters"@,
        KeyError::InvalidCharacters => "Key contains invalid characters (only a-z, A-Z, 0-9, _, - allowed)"@,
        KeyError::Whitespace => "Key cannot have leading or trailing whitespace"@,
    }
}

/// Every string of 1 to `MAX_LENGTH` characters made only of allowed
/// characters is accepted. A key with that text, turned into its `String` and
/// validated again, gives back a key equal to itself.
pub proof fn lemma_valid_text_round_trips(s: Seq<char>)
    requires
        s.len() > 0,
        s.len() <= MAX_LENGTH,
        forall|i: int| 0 <= i < s.len() ==> allowed_char(#[trigger] s[i]),
    ensures
        key_error(s) is None,
        forall|k: Key|
            #![trigger k@]
            k@ == s ==> {
                let text = <String as vstd::std_specs::convert::FromSpec<Key>>::from_spec(k);
                &&& text@ == s
                &&& <Key as vstd::std_specs::convert::TryFromSpec<String>>::try_from_spec(text)
                    == Ok::<Key, KeyError>(k)
            },
{
}

/// Validation never reports `Whitespace`: whitespace is refused by the
/// character rule, which comes first.
pub proof fn lemma_whitespace_never_reported(s: Seq<char>)
    ensures
        key_error(s) != Some(KeyError::Whitespace),
{
}

/// A string that holds a character outside the allowed set, and is not too
/// long, is refused for its characters.
pub proof fn lemma_bad_char_rejected(s: Seq<char>, i: int)
    requires
        0 <= i < s.len(),
        !allowed_char(s[i]),
        s.len() <= MAX_LENGTH,
    ensures
        key_error(s) == Some(KeyError::InvalidCharacters),
{
}

} // verus!
