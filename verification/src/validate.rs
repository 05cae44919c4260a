//! Checks on what a translation provider returns.

use crate::text::{all_whitespace, chars_of, is_whitespace, spec_is_whitespace, trim};
use crate::translator::TranslatorError;
use vstd::prelude::*;

verus! {

/// Marker for placeholder checks on translated text.
#[derive(Debug, Default)]
pub struct PlaceholderValidation;

/// A translation is accepted when it holds a character other than
/// whitespace; otherwise `EmptyTranslation`.
pub fn validate_non_empty_translation(text: &str) -> (r: Result<(), TranslatorError>)
    ensures
        r is Ok <==> !all_whitespace(text@),
        r is Err ==> r == Err::<(), TranslatorError>(TranslatorError::EmptyTranslation),
{
    let v = chars_of(text);
    let mut i: usize = 0;
    while i < v.len()
        invariant
            v@ == text@,
            i <= v@.len(),
            forall|k: int| 0 <= k < i ==> spec_is_whitespace(#[trigger] v@[k]),
        decreases v.len() - i,
    {
        if !is_whitespace(v[i]) {
            return Ok(());
        }
        i = i + 1;
    }
    Err(TranslatorError::EmptyTranslation)
}

/// A text is all whitespace exactly when trimming leaves nothing.
pub proof fn lemma_all_whitespace_iff_trim_empty(s: Seq<char>)
    ensures
        all_whitespace(s) <==> trim(s).len() == 0,
    decreases s.len(),
{
    lemma_trim_start_empty(s);
    if crate::text::trim_start(s).len() > 0 {
        lemma_trim_end_keeps_first(crate::text::trim_start(s));
    }
}

/// Trimming does not change whether a text is all whitespace.
pub proof fn lemma_trim_all_whitespace(s: Seq<char>)
    ensures
        all_whitespace(trim(s)) == all_whitespace(s),
        all_whitespace(trim(s)) <==> trim(s).len() == 0,
{
    lemma_all_whitespace_iff_trim_empty(s);
    lemma_trim_start_empty(s);
    let t = crate::text::trim_start(s);
    lemma_trim_end_prefix(t);
    if trim(s).len() > 0 {
        assert(trim(s)[0] == t[0]);
    }
}

proof fn lemma_trim_end_prefix(t: Seq<char>)
    ensures
        crate::text::trim_end(t).len() <= t.len(),
        crate::text::trim_end(t) == t.take(crate::text::trim_end(t).len() as int),
    decreases t.len(),
{
    if t.len() > 0 && spec_is_whitespace(t.last()) {
        lemma_trim_end_prefix(t.drop_last());
        assert(t.drop_last().take(crate::text::trim_end(t).len() as int) =~= t.take(
            crate::text::trim_end(t).len() as int,
        ));
    } else {
        assert(t.take(t.len() as int) =~= t);
    }
}

proof fn lemma_trim_start_empty(s: Seq<char>)
    ensures
        all_whitespace(s) <==> crate::text::trim_start(s).len() == 0,
        crate::text::trim_start(s).len() > 0 ==> !spec_is_whitespace(crate::text::trim_start(s)[0]),
    decreases s.len(),
{
    if s.len() > 0 && spec_is_whitespace(s[0]) {
        lemma_trim_start_empty(s.drop_first());
        if all_whitespace(s.drop_first()) {
            assert forall|i: int| 0 <= i < s.len() implies spec_is_whitespace(#[trigger] s[i]) by {
                if i > 0 {
                    assert(s[i] == s.drop_first()[i - 1]);
                }
            }
        }
        if all_whitespace(s) {
            assert forall|i: int| 0 <= i < s.drop_first().len() implies spec_is_whitespace(
                #[trigger] s.drop_first()[i],
            ) by {
                assert(s.drop_first()[i] == s[i + 1]);
            }
        }
    }
}

proof fn lemma_trim_end_keeps_first(s: Seq<char>)
    requires
        s.len() > 0,
        !spec_is_whitespace(s[0]),
    ensures
        crate::text::trim_end(s).len() > 0,
    decreases s.len(),
{
    if s.len() > 1 && spec_is_whitespace(s.last()) {
        assert(s.drop_last()[0] == s[0]);
        lemma_trim_end_keeps_first(s.drop_last());
    }
}

} // verus!
