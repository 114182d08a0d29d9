//! Classification of windows by their title and class name.
//!
//! A window is a target when its title holds a target keyword, and it is
//! skipped (never minimized) when it belongs to the desktop shell or its title
//! holds an ignored keyword. Keywords match as substrings, without regard to
//! case.

use vstd::prelude::*;
use crate::keywords::KeywordTable;
use crate::text::{contains, is_substring, lowercase, texts, to_lowercase};
use crate::window::WindowInfo;

verus! {

/// Some keyword's lowercase form occurs in the text `lowered`.
pub open spec fn holds_keyword(lowered: Seq<char>, keywords: Seq<Seq<char>>) -> bool {
    exists|i: int|
        0 <= i < keywords.len() && is_substring(lowercase(#[trigger] keywords[i]), lowered)
}

/// The title matches one of the keywords: the lowercase form of some keyword
/// is a substring of the lowercase form of the title.
pub open spec fn matches_any(title: Seq<char>, keywords: Seq<Seq<char>>) -> bool {
    holds_keyword(lowercase(title), keywords)
}

/// The window belongs to the desktop shell, or has no title at all.
pub open spec fn is_shell_window(title: Seq<char>, class_name: Seq<char>) -> bool {
    ||| title.len() == 0
    ||| is_substring("Program Manager"@, title)
    ||| is_substring("Desktop"@, title)
    ||| is_substring("Shell_TrayWnd"@, class_name)
}

/// The window must never be minimized: it is a shell window, or its title
/// matches an ignored keyword.
pub open spec fn should_skip(
    title: Seq<char>,
    class_name: Seq<char>,
    ignored: Seq<Seq<char>>,
) -> bool {
    is_shell_window(title, class_name) || matches_any(title, ignored)
}

/// Every keyword of the list is a key of the table.
pub open spec fn covered_by(keywords: Seq<String>, table: &KeywordTable) -> bool {
    forall|i: int| 0 <= i < keywords.len() ==> table.domain().contains((#[trigger] keywords[i])@)
}

/// Tells whether the lowercase form of some keyword occurs in `lowered`.
fn any_keyword_in(lowered: &String, keywords: &[String], table: &KeywordTable) -> (found: bool)
    requires
        covered_by(keywords@, table),
    ensures
        found == holds_keyword(lowered@, texts(keywords@)),
{
    let ghost ks = texts(keywords@);
    let mut i: usize = 0;
    while i < keywords.len()
        invariant
            i <= keywords.len(),
            ks == texts(keywords@),
            covered_by(keywords@, table),
            forall|j: int| 0 <= j < i ==> !is_substring(lowercase(#[trigger] ks[j]), lowered@),
        decreases keywords.len() - i,
    {
        let low = table.get(&keywords[i]);
        if contains(lowered.as_str(), low.as_str()) {
            assert(is_substring(lowercase(ks[i as int]), lowered@));
            return true;
        }
        i += 1;
    }
    false
}

/// Tells whether the window is a target: whether its title matches one of the
/// target keywords. The table must hold every keyword of the list.
pub fn is_target_window(
    window: &WindowInfo,
    target_keywords: &[String],
    keyword_cache: &KeywordTable,
) -> (target: bool)
    requires
        covered_by(target_keywords@, keyword_cache),
    ensures
        target == matches_any(window.title@, texts(target_keywords@)),
{
    let title_lower = to_lowercase(window.title.as_str());
    any_keyword_in(&title_lower, target_keywords, keyword_cache)
}

/// Tells whether the window must be left alone: whether it is a shell window
/// or its title matches one of the ignored keywords. The table must hold
/// every keyword of the list.
pub fn should_skip_window(
    window: &WindowInfo,
    ignored_keywords: &[String],
    ignored_cache: &KeywordTable,
) -> (skip: bool)
    requires
        covered_by(ignored_keywords@, ignored_cache),
    ensures
        skip == should_skip(window.title@, window.class_name@, texts(ignored_keywords@)),
        window.title@.len() == 0 ==> skip,
        is_substring("Program Manager"@, window.title@) ==> skip,
        is_substring("Desktop"@, window.title@) ==> skip,
        is_substring("Shell_TrayWnd"@, window.class_name@) ==> skip,
{
    if window.title.as_str().is_empty() || contains(window.title.as_str(), "Program Manager")
        || contains(window.title.as_str(), "Desktop") || contains(
        window.class_name.as_str(),
        "Shell_TrayWnd",
    ) {
        return true;
    }
    let title_lower = to_lowercase(window.title.as_str());
    any_keyword_in(&title_lower, ignored_keywords, ignored_cache)
}

/// Matching ignores case: two titles with the same lowercase form, held
/// against two keyword lists that agree keyword by keyword in lowercase, give
/// the same answer.
pub proof fn lemma_matching_ignores_case(
    title_a: Seq<char>,
    title_b: Seq<char>,
    keywords_a: Seq<Seq<char>>,
    keywords_b: Seq<Seq<char>>,
)
    requires
        lowercase(title_a) == lowercase(title_b),
        keywords_a.len() == keywords_b.len(),
        forall|i: int|
            0 <= i < keywords_a.len() ==> lowercase(#[trigger] keywords_a[i]) == lowercase(
                keywords_b[i],
            ),
    ensures
        matches_any(title_a, keywords_a) == matches_any(title_b, keywords_b),
{
    if matches_any(title_a, keywords_a) {
        let i = choose|i: int|
            0 <= i < keywords_a.len() && is_substring(
                lowercase(#[trigger] keywords_a[i]),
                lowercase(title_a),
            );
        assert(is_substring(lowercase(keywords_b[i]), lowercase(title_b)));
    }
    if matches_any(title_b, keywords_b) {
        let i = choose|i: int|
            0 <= i < keywords_b.len() && is_substring(
                lowercase(#[trigger] keywords_b[i]),
                lowercase(title_b),
            );
        assert(lowercase(keywords_a[i]) == lowercase(keywords_b[i]));
        assert(is_substring(lowercase(keywords_a[i]), lowercase(title_a)));
    }
}

/// An empty title is skipped whatever the ignored keywords are, and so is
/// every shell window, also when no keyword is ignored.
pub proof fn lemma_shell_windows_are_skipped(
    title: Seq<char>,
    class_name: Seq<char>,
    ignored: Seq<Seq<char>>,
)
    ensures
        title.len() == 0 ==> should_skip(title, class_name, ignored),
        is_substring("Program Manager"@, title) ==> should_skip(title, class_name, ignored),
        is_substring("Desktop"@, title) ==> should_skip(title, class_name, ignored),
        is_substring("Shell_TrayWnd"@, class_name) ==> should_skip(title, class_name, ignored),
        should_skip(title, class_name, Seq::empty()) == is_shell_window(title, class_name),
{
}

} // verus!
