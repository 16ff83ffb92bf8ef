use vstd::prelude::*;

verus! {

#[verifier::external_type_specification]
#[verifier::external_body]
pub struct ExRegex(regex::Regex);

/// Whether `regex::Regex::new` accepts the pattern `p`.
pub uninterp spec fn pattern_compiles(p: Seq<char>) -> bool;

/// Capture group 1 of each non-overlapping match of the pattern `p` in
/// `text`, left to right; `None` where the group took no part in a match.
pub uninterp spec fn group1_captures(p: Seq<char>, text: Seq<char>) -> Seq<Option<Seq<char>>>;

/// A compiled URL-detection pattern together with the text it was compiled
/// from. The fields are private: `compile` is the only way to make one, so the
/// two always agree.
pub struct UrlPattern {
    source: String,
    re: regex::Regex,
}

impl UrlPattern {
    /// The pattern text this value was compiled from.
    pub closed spec fn source_spec(&self) -> Seq<char> {
        self.source@
    }

    pub fn source(&self) -> (r: &str)
        ensures
            r@ == self.source_spec(),
    {
        self.source.as_str()
    }
}

/// Relies on regex::Regex::new: it succeeds or fails on the pattern text alone.
#[verifier::external_body]
pub(crate) fn compile(p: &str) -> (r: Option<UrlPattern>)
    ensures
        r is Some <==> pattern_compiles(p@),
        r is Some ==> r->0.source_spec() == p@,
{
    match regex::Regex::new(p) {
        Ok(re) => Some(UrlPattern { source: p.to_owned(), re }),
        Err(_) => None,
    }
}

/// Relies on regex::Regex::captures_iter and Captures::get: group 1 of each
/// non-overlapping match, in the order of the text.
#[verifier::external_body]
pub(crate) fn captures(pat: &UrlPattern, text: &str) -> (r: Vec<Option<String>>)
    ensures
        r@.len() == group1_captures(pat.source_spec(), text@).len(),
        forall|i: int|
            0 <= i < r@.len() ==> (r@[i] is Some <==> group1_captures(pat.source_spec(), text@)[i] is Some),
        forall|i: int|
            0 <= i < r@.len() && r@[i] is Some ==> r@[i]->0@ == group1_captures(
                pat.source_spec(),
                text@,
            )[i]->0,
{
    pat.re.captures_iter(text).map(|c| c.get(1).map(|m| m.as_str().to_owned())).collect()
}

} // verus!
