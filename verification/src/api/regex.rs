//! Regular expressions for scripts, on top of the `regex` crate.
//!
//! What a pattern matches is the `regex` crate's to say. Its answers have
//! names here, and the functions of [`Regex`] say over those names what they
//! give to a script: the empty string where nothing was found, or where a
//! group took no part in a match.

use vstd::prelude::*;

verus! {

/// The compiled form of a pattern, as the `regex` crate keeps it. Nothing
/// is known of what is inside.
#[verifier::external_body]
struct Compiled {
    inner: regex::Regex,
}

impl Clone for Compiled {
    /// Another handle on the same compiled pattern (`Clone` of
    /// `regex::Regex`).
    #[verifier::external_body]
    fn clone(&self) -> Self {
        Compiled { inner: self.inner.clone() }
    }
}

/// Whether `pattern` matches anywhere in `text`.
pub uninterp spec fn regex_is_match(pattern: Seq<char>, text: Seq<char>) -> bool;

/// The first match of `pattern` in `text`, if there is one.
pub uninterp spec fn regex_find(pattern: Seq<char>, text: Seq<char>) -> Option<Seq<char>>;

/// The groups of the first match of `pattern` in `text`, if there is one:
/// the whole match first, then each group of the pattern, with nothing for a
/// group that took no part.
pub uninterp spec fn regex_captures(pattern: Seq<char>, text: Seq<char>) -> Option<
    Seq<Option<Seq<char>>>,
>;

/// The groups of every match of `pattern` in `text`, from left to right.
pub uninterp spec fn regex_captures_all(pattern: Seq<char>, text: Seq<char>) -> Seq<
    Seq<Option<Seq<char>>>,
>;

/// `text` with every match of `pattern` replaced by `rep`, in which `$`
/// refers to the groups of the match.
pub uninterp spec fn regex_replace_all(pattern: Seq<char>, text: Seq<char>, rep: Seq<char>) -> Seq<
    char,
>;

/// The strings as contracts see them.
pub open spec fn texts(items: Seq<String>) -> Seq<Seq<char>> {
    Seq::new(items.len(), |i: int| items[i]@)
}

/// The groups of one match as contracts see them.
pub open spec fn groups(items: Seq<Option<String>>) -> Seq<Option<Seq<char>>> {
    Seq::new(
        items.len(),
        |i: int|
            match items[i] {
                Some(group) => Some(group@),
                None => None,
            },
    )
}

/// The groups of a match as a script gets them: the empty string stands for
/// a group that took no part.
pub open spec fn filled(groups: Seq<Option<Seq<char>>>) -> Seq<Seq<char>> {
    Seq::new(
        groups.len(),
        |i: int|
            match groups[i] {
                Some(group) => group,
                None => Seq::empty(),
            },
    )
}

/// A pattern that compiled, ready to be matched against text. The compiled
/// form is always that of the pattern beside it: [`Regex::new`] is the only
/// way to make one.
#[derive(Clone)]
pub struct Regex {
    pattern: String,
    compiled: Compiled,
}

impl View for Regex {
    type V = Seq<char>;

    /// The pattern.
    closed spec fn view(&self) -> Seq<char> {
        self.pattern@
    }
}

/// Compiles `pattern` (`regex::Regex::new`). An error comes back as the text
/// that its `Debug` form gives. Whether a pattern compiles is not stated: it
/// is a matter of the pattern's syntax and of the size that the crate allows
/// a compiled pattern.
#[verifier::external_body]
fn compile(pattern: &str) -> Result<Compiled, String> {
    regex::Regex::new(pattern).map(|inner| Compiled { inner }).map_err(|e| format!("{:?}", e))
}

/// Whether the pattern matches anywhere in `text` (`regex::Regex::is_match`).
#[verifier::external_body]
fn is_match(re: &Regex, text: &str) -> (found: bool)
    ensures
        found == regex_is_match(re@, text@),
{
    re.compiled.inner.is_match(text)
}

/// The text of the first match in `text` (`regex::Regex::find`).
#[verifier::external_body]
fn first_match(re: &Regex, text: &str) -> (found: Option<String>)
    ensures
        match found {
            Some(m) => regex_find(re@, text@) == Some(m@),
            None => regex_find(re@, text@) is None,
        },
{
    re.compiled.inner.find(text).map(|m| m.as_str().to_string())
}

/// The groups of the first match in `text` (`regex::Regex::captures`), each
/// as its text.
#[verifier::external_body]
fn first_captures(re: &Regex, text: &str) -> (found: Option<Vec<Option<String>>>)
    ensures
        match found {
            Some(items) => regex_captures(re@, text@) == Some(groups(items@)),
            None => regex_captures(re@, text@) is None,
        },
{
    re.compiled.inner.captures(text).map(|c| c.iter().map(|m| m.map(|m| m.as_str().to_string())).collect())
}

/// The groups of every match in `text` (`regex::Regex::captures_iter`), each
/// as its text.
#[verifier::external_body]
fn all_captures(re: &Regex, text: &str) -> (found: Vec<Vec<Option<String>>>)
    ensures
        Seq::new(found@.len(), |i: int| groups(found@[i]@)) == regex_captures_all(re@, text@),
{
    re.compiled.inner.captures_iter(text).map(
        |c| c.iter().map(|m| m.map(|m| m.as_str().to_string())).collect(),
    ).collect()
}

/// `text` with every match replaced by `rep` (`regex::Regex::replace_all`),
/// or nothing where the pattern does not match: the crate then hands the
/// text back as it got it.
#[verifier::external_body]
fn replaced(re: &Regex, text: &str, rep: &str) -> (new: Option<String>)
    ensures
        new is Some <==> regex_is_match(re@, text@),
        new matches Some(new) ==> new@ == regex_replace_all(re@, text@, rep@),
{
    match re.compiled.inner.replace_all(text, rep) {
        std::borrow::Cow::Borrowed(_) => None,
        std::borrow::Cow::Owned(new) => Some(new),
    }
}

/// Gives the groups of a match to a script: a group that took no part
/// becomes the empty string.
pub fn capt_to_arr(capt: Vec<Option<String>>) -> (arr: Vec<String>)
    ensures
        texts(arr@) == filled(groups(capt@)),
{
    let mut arr: Vec<String> = Vec::new();
    let mut i: usize = 0;
    while i < capt.len()
        invariant
            i <= capt@.len(),
            arr@.len() == i,
            forall|k: int| 0 <= k < i ==> (#[trigger] arr@[k])@ == filled(groups(capt@))[k],
        decreases capt@.len() - i,
    {
        match &capt[i] {
            Some(group) => arr.push(group.clone()),
            None => arr.push(String::new()),
        }
        i = i + 1;
    }
    assert(texts(arr@) =~= filled(groups(capt@)));
    arr
}

impl Regex {
    /// Compiles the pattern `s`. The error is the `regex` crate's, as text.
    pub fn new(s: &str) -> (made: Result<Self, String>)
        ensures
            made matches Ok(re) ==> re@ == s@,
    {
        Self::made_of(s, compile(s))
    }

    /// Puts a pattern and what came of compiling it together: a compiled
    /// form is kept with its pattern, an error is handed on as it is.
    fn made_of(s: &str, compiled: Result<Compiled, String>) -> (made: Result<Self, String>)
        ensures
            match compiled {
                Ok(_) => made matches Ok(re) && re@ == s@,
                Err(e) => made == Err::<Self, String>(e),
            },
    {
        match compiled {
            Ok(compiled) => Ok(Self { pattern: s.to_owned(), compiled }),
            Err(e) => Err(e),
        }
    }

    /// The pattern as it was given.
    pub fn pattern(&self) -> (pattern: &str)
        ensures
            pattern@ == self@,
    {
        self.pattern.as_str()
    }

    /// Whether the pattern matches anywhere in `s`.
    pub fn matches(&mut self, s: &str) -> (found: bool)
        ensures
            found == regex_is_match(old(self)@, s@),
            final(self)@ == old(self)@,
    {
        is_match(self, s)
    }

    /// The first match in `s`, or the empty string if there is none.
    pub fn find(&mut self, s: &str) -> (found: String)
        ensures
            found@ == match regex_find(old(self)@, s@) {
                Some(m) => m,
                None => Seq::empty(),
            },
            final(self)@ == old(self)@,
    {
        match first_match(self, s) {
            Some(m) => m,
            None => String::new(),
        }
    }

    /// The groups of the first match in `s`, the whole match first, or no
    /// strings at all if there is no match.
    pub fn captures(&mut self, s: &str) -> (found: Vec<String>)
        ensures
            texts(found@) == match regex_captures(old(self)@, s@) {
                Some(groups) => filled(groups),
                None => Seq::empty(),
            },
            final(self)@ == old(self)@,
    {
        match first_captures(self, s) {
            Some(capt) => capt_to_arr(capt),
            None => {
                let none: Vec<String> = Vec::new();
                assert(texts(none@) =~= Seq::empty());
                none
            },
        }
    }

    /// The groups of every match in `s`, match by match.
    pub fn captures_all(&mut self, s: &str) -> (found: Vec<Vec<String>>)
        ensures
            Seq::new(found@.len(), |i: int| texts(found@[i]@)) == Seq::new(
                regex_captures_all(old(self)@, s@).len(),
                |i: int| filled(regex_captures_all(old(self)@, s@)[i]),
            ),
            final(self)@ == old(self)@,
    {
        let all = all_captures(self, s);
        let ghost named = regex_captures_all(self@, s@);
        let mut found: Vec<Vec<String>> = Vec::new();
        let mut i: usize = 0;
        while i < all.len()
            invariant
                i <= all@.len(),
                found@.len() == i,
                named == Seq::new(all@.len(), |k: int| groups(all@[k]@)),
                forall|k: int| 0 <= k < i ==> texts((#[trigger] found@[k])@) == filled(named[k]),
            decreases all@.len() - i,
        {
            found.push(capt_to_arr(all[i].clone()));
            i = i + 1;
        }
        assert(Seq::new(found@.len(), |i: int| texts(found@[i]@)) =~= Seq::new(
            named.len(),
            |i: int| filled(named[i]),
        ));
        found
    }

    /// `s` with every match replaced by `rep`, or nothing if the pattern
    /// does not match in `s`.
    pub fn replacement(&mut self, s: &str, rep: &str) -> (new: Option<String>)
        ensures
            new is Some <==> regex_is_match(old(self)@, s@),
            new matches Some(new) ==> new@ == regex_replace_all(old(self)@, s@, rep@),
            final(self)@ == old(self)@,
    {
        replaced(self, s, rep)
    }

    /// `s` with every match replaced by `rep`. Where the pattern does not
    /// match, that is `s` itself.
    pub fn replace(&mut self, s: &str, rep: &str) -> (new: String)
        ensures
            new@ == if regex_is_match(old(self)@, s@) {
                regex_replace_all(old(self)@, s@, rep@)
            } else {
                s@
            },
            final(self)@ == old(self)@,
    {
        match replaced(self, s, rep) {
            Some(new) => new,
            None => s.to_owned(),
        }
    }
}

} // verus!
