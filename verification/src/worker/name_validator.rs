//! Which texts are names of workers.
use crate::text::{chars_of, cat2, text_of};
use vstd::prelude::*;

verus! {

/// Why a text is no name.
#[derive(Debug)]
pub enum NameValidationError {
    Empty,
    TooLong,
    /// The characters that no name may hold.
    InvalidCharacters(String),
}

impl NameValidationError {
    /// The text of an error.
    pub open spec fn text(self) -> Seq<char> {
        match self {
            NameValidationError::Empty => "Worker name is empty"@,
            NameValidationError::TooLong => {
                "Worker name exceeds maximum length of 64 characters"@
            },
            NameValidationError::InvalidCharacters(chars) => {
                "Worker name contains invalid characters: "@ + chars@
            },
        }
    }

    /// Returns the text of an error.
    pub fn message(&self) -> (r: String)
        ensures
            r@ == self.text(),
    {
        match self {
            NameValidationError::Empty => "Worker name is empty".to_owned(),
            NameValidationError::TooLong => {
                "Worker name exceeds maximum length of 64 characters".to_owned()
            },
            NameValidationError::InvalidCharacters(chars) => {
                cat2("Worker name contains invalid characters: ", chars.as_str())
            },
        }
    }
}

/// The pattern of a name: one to 64 letters, digits, underscores, hyphens or characters of
/// the Japanese scripts. The mark for long vowels is listed apart: it is shared by Hiragana
/// and Katakana and belongs to neither.
pub const NAME_PATTERN: &'static str = "^[a-zA-Z0-9_\\-\\p{Hiragana}\\p{Katakana}\\p{Han}\\x{30FC}]{1,64}$";

/// A letter or digit of ASCII, an underscore or a hyphen.
pub open spec fn plain_name_char(c: char) -> bool {
    'a' <= c <= 'z' || 'A' <= c <= 'Z' || '0' <= c <= '9' || c == '_' || c == '-'
}

/// A character of the Hiragana script.
pub open spec fn hiragana(c: char) -> bool {
    ||| 0x3041 <= c as u32 <= 0x3096
    ||| 0x309d <= c as u32 <= 0x309f
    ||| 0x1b001 <= c as u32 <= 0x1b11f
    ||| c as u32 == 0x1b132
    ||| 0x1b150 <= c as u32 <= 0x1b152
    ||| c as u32 == 0x1f200
}

/// A character of the Katakana script.
pub open spec fn katakana(c: char) -> bool {
    ||| 0x30a1 <= c as u32 <= 0x30fa
    ||| 0x30fd <= c as u32 <= 0x30ff
    ||| 0x31f0 <= c as u32 <= 0x31ff
    ||| 0x32d0 <= c as u32 <= 0x32fe
    ||| 0x3300 <= c as u32 <= 0x3357
    ||| 0xff66 <= c as u32 <= 0xff6f
    ||| 0xff71 <= c as u32 <= 0xff9d
    ||| 0x1aff0 <= c as u32 <= 0x1aff3
    ||| 0x1aff5 <= c as u32 <= 0x1affb
    ||| 0x1affd <= c as u32 <= 0x1affe
    ||| c as u32 == 0x1b000
    ||| 0x1b120 <= c as u32 <= 0x1b122
    ||| c as u32 == 0x1b155
    ||| 0x1b164 <= c as u32 <= 0x1b167
}

/// A character of the Han script.
pub open spec fn han(c: char) -> bool {
    ||| 0x2e80 <= c as u32 <= 0x2e99
    ||| 0x2e9b <= c as u32 <= 0x2ef3
    ||| 0x2f00 <= c as u32 <= 0x2fd5
    ||| c as u32 == 0x3005
    ||| c as u32 == 0x3007
    ||| 0x3021 <= c as u32 <= 0x3029
    ||| 0x3038 <= c as u32 <= 0x303b
    ||| 0x3400 <= c as u32 <= 0x4dbf
    ||| 0x4e00 <= c as u32 <= 0x9fff
    ||| 0xf900 <= c as u32 <= 0xfa6d
    ||| 0xfa70 <= c as u32 <= 0xfad9
    ||| 0x16fe2 <= c as u32 <= 0x16fe3
    ||| 0x16ff0 <= c as u32 <= 0x16ff1
    ||| 0x20000 <= c as u32 <= 0x2a6df
    ||| 0x2a700 <= c as u32 <= 0x2b739
    ||| 0x2b740 <= c as u32 <= 0x2b81d
    ||| 0x2b820 <= c as u32 <= 0x2cea1
    ||| 0x2ceb0 <= c as u32 <= 0x2ebe0
    ||| 0x2ebf0 <= c as u32 <= 0x2ee5d
    ||| 0x2f800 <= c as u32 <= 0x2fa1d
    ||| 0x30000 <= c as u32 <= 0x3134a
    ||| 0x31350 <= c as u32 <= 0x323af
}

/// The mark for long vowels.
pub open spec fn long_vowel_mark(c: char) -> bool {
    c as u32 == 0x30fc
}

/// A character that a name may hold.
pub open spec fn name_char(c: char) -> bool {
    plain_name_char(c) || hiragana(c) || katakana(c) || han(c) || long_vowel_mark(c)
}

/// What the name pattern matches.
pub open spec fn fits_pattern(name: Seq<char>) -> bool {
    1 <= name.len() <= 64 && forall|i: int| 0 <= i < name.len() ==> name_char(#[trigger] name[i])
}

/// Calls `regex::Regex::is_match` for the name pattern. The claim: the pattern matches a
/// text of one to 64 characters, each a plain name character, one that the tables of
/// `regex-syntax` list under the scripts Hiragana, Katakana and Han, or the mark for long
/// vowels, and no other text.
#[verifier::external_body]
fn pattern_matches(pattern: &str, name: &str) -> (r: bool)
    requires
        pattern@ == NAME_PATTERN@,
    ensures
        r == fits_pattern(name@),
{
    regex::Regex::new(pattern).expect("the name pattern is valid").is_match(name)
}

/// Punctuation, Hiragana, Katakana and the common characters of Han.
pub open spec fn japanese_char(c: char) -> bool {
    ||| 0x3000 <= c as u32 <= 0x303f
    ||| 0x3040 <= c as u32 <= 0x309f
    ||| 0x30a0 <= c as u32 <= 0x30ff
    ||| 0x4e00 <= c as u32 <= 0x9fff
}

fn is_japanese_char(c: char) -> (r: bool)
    ensures
        r == japanese_char(c),
{
    let n: u32 = c as u32;
    (0x3000 <= n && n <= 0x303f) || (0x3040 <= n && n <= 0x309f) || (0x30a0 <= n && n <= 0x30ff)
        || (0x4e00 <= n && n <= 0x9fff)
}

/// The characters that are reported as invalid: neither plain nor Japanese.
pub open spec fn invalid_chars(name: Seq<char>) -> Seq<char>
    decreases name.len(),
{
    if name.len() == 0 {
        seq![]
    } else if plain_name_char(name.last()) || japanese_char(name.last()) {
        invalid_chars(name.drop_last())
    } else {
        invalid_chars(name.drop_last()).push(name.last())
    }
}

fn invalid_chars_of(name: &Vec<char>) -> (r: String)
    ensures
        r@ == invalid_chars(name@),
{
    let mut out: Vec<char> = Vec::new();
    assert(name@.take(0) =~= seq![]);
    for i in 0..name.len()
        invariant
            out@ == invalid_chars(name@.take(i as int)),
    {
        assert(name@.take(i + 1).drop_last() =~= name@.take(i as int));
        let c = name[i];
        let plain = ('a' <= c && c <= 'z') || ('A' <= c && c <= 'Z') || ('0' <= c && c <= '9')
            || c == '_' || c == '-';
        if !plain && !is_japanese_char(c) {
            out.push(c);
        }
    }
    assert(name@.take(name.len() as int) =~= name@);
    text_of(&out)
}

/// Whether a text is a name.
pub open spec fn valid_name(name: Seq<char>) -> bool {
    fits_pattern(name)
}

/// What is said of a text: that it is a name, or the first reason why it is not.
pub open spec fn verdict(name: Seq<char>, r: Result<(), NameValidationError>) -> bool {
    match r {
        Ok(()) => valid_name(name),
        Err(NameValidationError::Empty) => name.len() == 0,
        Err(NameValidationError::TooLong) => name.len() > 64,
        Err(NameValidationError::InvalidCharacters(chars)) => 0 < name.len() <= 64
            && !fits_pattern(name) && chars@ == invalid_chars(name),
    }
}

/// Tells names from other texts.
pub struct NameValidator {
    pattern: &'static str,
}

impl NameValidator {
    #[verifier::type_invariant]
    spec fn for_names(self) -> bool {
        self.pattern@ == NAME_PATTERN@
    }

    /// Returns a validator.
    pub fn new() -> Self {
        NameValidator { pattern: NAME_PATTERN }
    }

    /// Checks that a text is a name.
    pub fn validate(&self, name: &str) -> (r: Result<(), NameValidationError>)
        ensures
            verdict(name@, r),
    {
        proof {
            use_type_invariant(self);
        }
        let chars = chars_of(name);
        if chars.len() == 0 {
            return Err(NameValidationError::Empty);
        }
        if chars.len() > 64 {
            return Err(NameValidationError::TooLong);
        }
        if !pattern_matches(self.pattern, name) {
            return Err(NameValidationError::InvalidCharacters(invalid_chars_of(&chars)));
        }
        Ok(())
    }
}

impl Default for NameValidator {
    fn default() -> Self {
        NameValidator::new()
    }
}

/// A name holds no character with a meaning in a path: no separator and no dot.
pub proof fn names_stay_in_directory(name: Seq<char>)
    requires
        valid_name(name),
    ensures
        !name.contains('/'),
        !name.contains('\\'),
        !name.contains('.'),
        name.len() > 0,
{
    if name.contains('/') {
        let i = choose|i: int| 0 <= i < name.len() && name[i] == '/';
        assert(name_char(name[i]));
    }
    if name.contains('\\') {
        let i = choose|i: int| 0 <= i < name.len() && name[i] == '\\';
        assert(name_char(name[i]));
    }
    if name.contains('.') {
        let i = choose|i: int| 0 <= i < name.len() && name[i] == '.';
        assert(name_char(name[i]));
    }
}

/// Names of letters, digits, underscores and hyphens are good from one to 64 characters on, and no
/// name holds a space or a character that controls.
pub proof fn plain_names_are_good(name: Seq<char>)
    ensures
        0 < name.len() <= 64 && (forall|i: int|
            0 <= i < name.len() ==> {
                let c = #[trigger] name[i];
                'a' <= c <= 'z' || 'A' <= c <= 'Z' || '0' <= c <= '9' || c == '_' || c == '-'
            }) ==> valid_name(name),
        valid_name(name) ==> 0 < name.len() <= 64 && forall|i: int|
            0 <= i < name.len() ==> {
                let c = #[trigger] name[i];
                c as u32 > ' ' as u32 && (c as u32 <= 0x7f ==> 'a' <= c <= 'z' || 'A' <= c <= 'Z'
                    || '0' <= c <= '9' || c == '_' || c == '-')
            },
{
    if 0 < name.len() <= 64 && (forall|i: int|
        0 <= i < name.len() ==> {
            let c = #[trigger] name[i];
            'a' <= c <= 'z' || 'A' <= c <= 'Z' || '0' <= c <= '9' || c == '_' || c == '-'
        }) {
        assert forall|i: int| 0 <= i < name.len() implies name_char(#[trigger] name[i]) by {}
    }
    if valid_name(name) {
        assert forall|i: int| 0 <= i < name.len() implies {
            let c = #[trigger] name[i];
            c as u32 > ' ' as u32 && (c as u32 <= 0x7f ==> 'a' <= c <= 'z' || 'A' <= c <= 'Z' || '0'
                <= c <= '9' || c == '_' || c == '-')
        } by {
            assert(name_char(name[i]));
        }
    }
}

/// What is said of a text tells whether it is a name, and of one that is not, whether it is empty
/// or too long.
pub proof fn verdicts_tell_names_apart(name: Seq<char>, r: Result<(), NameValidationError>)
    requires
        verdict(name, r),
    ensures
        r is Ok ==> valid_name(name),
        r is Err ==> !valid_name(name),
        name.len() == 0 ==> r == Err::<(), NameValidationError>(NameValidationError::Empty),
        name.len() > 64 ==> r == Err::<(), NameValidationError>(NameValidationError::TooLong),
        0 < name.len() <= 64 && r is Err ==> r->Err_0 is InvalidCharacters,
{
}

/// The characters that are reported are those of the name that are neither plain nor Japanese, in
/// their order.
pub proof fn reported_characters_are_invalid(name: Seq<char>, c: char)
    ensures
        ({
            let plain = 'a' <= c <= 'z' || 'A' <= c <= 'Z' || '0' <= c <= '9' || c == '_' || c
                == '-';
            let japanese = 0x3000 <= c as u32 <= 0x30ff || 0x4e00 <= c as u32 <= 0x9fff;
            invalid_chars(name.push(c)) == if plain || japanese {
                invalid_chars(name)
            } else {
                invalid_chars(name).push(c)
            }
        }),
        invalid_chars(seq![]).len() == 0,
{
    assert(name.push(c).drop_last() =~= name);
}

} // verus!
