//! Keys of the completion cache.

use vstd::prelude::*;

verus! {

/// What a [`CacheKey`] stands for: the flag's text and, where the key is
/// qualified, the text of the subject kind.
pub struct KeyView {
    pub command: Option<Seq<char>>,
    pub flag: Seq<char>,
}

/// The key of `flag` wherever it stands.
pub open spec fn flag_key(flag: Seq<char>) -> KeyView {
    KeyView { command: None, flag }
}

/// The key of `flag` where it follows the subject kind `command`.
pub open spec fn subject_key(command: Seq<char>, flag: Seq<char>) -> KeyView {
    KeyView { command: Some(command), flag }
}

/// Identifies one class of completable argument: a flag, either bare or
/// qualified by the kind of subject it is given to.
///
/// Two keys are the same key exactly when they hold the same text under the
/// same tag: a bare flag and the same flag under a subject kind are distinct.
#[derive(Debug)]
pub struct CacheKey {
    command: Option<String>,
    flag: String,
}

impl View for CacheKey {
    type V = KeyView;

    closed spec fn view(&self) -> KeyView {
        KeyView {
            command: match self.command {
                Some(c) => Some(c@),
                None => None,
            },
            flag: self.flag@,
        }
    }
}

impl DeepView for CacheKey {
    type V = KeyView;

    open spec fn deep_view(&self) -> KeyView {
        self@
    }
}

impl PartialEq for CacheKey {
    fn eq(&self, other: &CacheKey) -> (equal: bool) {
        let commands = match &self.command {
            Some(a) => match &other.command {
                Some(b) => *a == *b,
                None => false,
            },
            None => other.command.is_none(),
        };
        commands && self.flag == other.flag
    }
}

impl vstd::std_specs::cmp::PartialEqSpecImpl for CacheKey {
    open spec fn obeys_eq_spec() -> bool {
        true
    }

    open spec fn eq_spec(&self, other: &CacheKey) -> bool {
        self@ == other@
    }
}

impl Eq for CacheKey {}

impl CacheKey {
    /// The key of `flag` where it follows the subject kind `command`.
    pub fn new(command: &str, flag: &str) -> (key: CacheKey)
        ensures
            key@ == subject_key(command@, flag@),
    {
        CacheKey { command: Some(String::from_str(command)), flag: String::from_str(flag) }
    }

    /// The key of `flag` wherever it stands.
    pub fn flag(flag: &str) -> (key: CacheKey)
        ensures
            key@ == flag_key(flag@),
    {
        CacheKey { command: None, flag: String::from_str(flag) }
    }
}

impl Clone for CacheKey {
    fn clone(&self) -> (copy: CacheKey)
        ensures
            copy@ == self@,
    {
        let command = match &self.command {
            Some(c) => Some(c.clone()),
            None => None,
        };
        CacheKey { command, flag: self.flag.clone() }
    }
}

} // verus!
