//! The format of a UTxO reference: a transaction hash, `#`, an output index.

use regex::Regex;
use vstd::prelude::*;

verus! {

#[verifier::external_type_specification]
#[verifier::external_body]
pub struct ExRegex(regex::Regex);

/// The pattern that `Regex::new` compiled an expression from. It is `None`
/// for an expression that was built with other options than those of
/// `Regex::new`, whose matches its pattern alone does not decide.
pub uninterp spec fn regex_pattern(re: Regex) -> Option<Seq<char>>;

/// Whether the expression written as `pattern` matches somewhere in `haystack`.
pub uninterp spec fn regex_matches(pattern: Seq<char>, haystack: Seq<char>) -> bool;

/// What `Regex::new` answers to `pattern`: `None` where it compiles the
/// pattern, else the text of its error.
pub uninterp spec fn regex_refusal(pattern: Seq<char>) -> Option<Seq<char>>;

/// The pattern of a UTxO reference: 64 lower-case hexadecimal digits, `#`, and
/// a decimal output index, with nothing before or after.
pub const KEY_PATTERN: &'static str = "^[0-9a-f]{64}#[0-9]+$";

/// A key has the format of a UTxO reference when `KEY_PATTERN` matches it.
pub open spec fn is_utxo_ref(key: Seq<char>) -> bool {
    regex_matches(KEY_PATTERN@, key)
}

/// `Regex::new`: compiles `pattern`, or gives the text of the error. Which of
/// the two depends on the pattern alone; nothing is claimed about which
/// patterns compile. The expression that comes back was compiled from
/// `pattern` by `Regex::new`.
#[verifier::external_body]
fn compile(pattern: &str) -> (r: Result<Regex, String>)
    ensures
        match r {
            Ok(re) => regex_refusal(pattern@) is None && regex_pattern(re) == Some(pattern@),
            Err(message) => regex_refusal(pattern@) == Some(message@),
        },
{
    match Regex::new(pattern) {
        Ok(re) => Ok(re),
        Err(error) => Err(error.to_string()),
    }
}

/// `Regex::is_match`: whether the expression matches anywhere in `haystack`.
/// For an expression that `Regex::new` compiled, the answer depends on the
/// pattern and the haystack alone.
#[verifier::external_body]
fn is_match(re: &Regex, haystack: &str) -> (b: bool)
    ensures
        regex_pattern(*re) matches Some(pattern) ==> b == regex_matches(pattern, haystack@),
{
    re.is_match(haystack)
}

/// The compiled form of `KEY_PATTERN`, built once and used for every key.
pub struct KeyFormat {
    regex: Regex,
}

impl KeyFormat {
    #[verifier::type_invariant]
    spec fn compiled_from_key_pattern(&self) -> bool {
        regex_pattern(self.regex) == Some(KEY_PATTERN@)
    }

    /// Compiles `KEY_PATTERN`. Whether the pattern compiles is decided by the
    /// regex engine; on refusal its message is handed back.
    pub fn new() -> (r: Result<KeyFormat, String>)
        ensures
            match r {
                Ok(_) => regex_refusal(KEY_PATTERN@) is None,
                Err(message) => regex_refusal(KEY_PATTERN@) == Some(message@),
            },
    {
        match compile(KEY_PATTERN) {
            Ok(regex) => Ok(KeyFormat { regex }),
            Err(message) => Err(message),
        }
    }

    /// Tells whether `key` has the format of a UTxO reference.
    pub fn accepts(&self, key: &str) -> (b: bool)
        ensures
            b == is_utxo_ref(key@),
    {
        proof {
            use_type_invariant(self);
        }
        is_match(&self.regex, key)
    }
}

} // verus!
